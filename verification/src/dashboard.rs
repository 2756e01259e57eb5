//! The keyboard dashboard's decisions: which action a key stands for, what
//! each row of the match list shows, and the status line after an execution.

use vstd::prelude::*;
use vstd::utf8::{decode_utf8, encode_utf8, encode_utf8_decode_utf8, is_char_boundary};
use crate::clock::{elapsed_millis, instant_now};
use crate::match_engine::{
    manager_error_message, manager_execute_step, ManagerError, MatchConfig, MatchManager,
};

verus! {

/// A key press, as far as the dashboard tells keys apart.
#[derive(Debug, Clone, Copy, PartialEq, Eq, Structural)]
pub enum KeyInput {
    Char(char),
    Esc,
    Other,
}

/// What a key press asks for.
#[derive(Debug, PartialEq, Eq)]
pub enum DashboardAction {
    /// Execute the match with this id.
    ExecuteMatch(String),
    Quit,
}

/// An ASCII digit.
pub open spec fn is_digit(c: char) -> bool {
    '0' <= c <= '9'
}

/// The value of an ASCII digit.
pub open spec fn digit_value(c: char) -> int {
    c as int - '0' as int
}

/// `i` is the first match whose keyboard shortcut is `c`.
pub open spec fn first_shortcut(matches: Seq<MatchConfig>, c: char, i: int) -> bool {
    &&& 0 <= i < matches.len()
    &&& matches[i].keyboard_shortcut == Some(c)
    &&& forall|j: int| 0 <= j < i ==> #[trigger] matches[j].keyboard_shortcut != Some(c)
}

/// The action `r` is the one `key` stands for, given the listed `matches`:
/// `q`, `Q` and Esc quit; another character executes the first match whose
/// keyboard shortcut it is; a digit `n` from 1 to the number of matches that
/// is no match's shortcut executes the `n`-th match; other keys do nothing.
pub open spec fn key_action(key: KeyInput, matches: Seq<MatchConfig>, r: Option<DashboardAction>) -> bool {
    match key {
        KeyInput::Esc => r == Some(DashboardAction::Quit),
        KeyInput::Other => r is None,
        KeyInput::Char(c) => if c == 'q' || c == 'Q' {
            r == Some(DashboardAction::Quit)
        } else {
            &&& forall|i: int|
                #[trigger] first_shortcut(matches, c, i) ==> (r matches Some(
                    DashboardAction::ExecuteMatch(id),
                ) && id@ == matches[i].id@)
            &&& (forall|i: int| !first_shortcut(matches, c, i)) ==> if is_digit(c) && 1 <= digit_value(c)
                <= matches.len() {
                r matches Some(DashboardAction::ExecuteMatch(id)) && id@ == matches[digit_value(c)
                    - 1].id@
            } else {
                r is None
            }
        },
    }
}

/// Turns key presses into dashboard actions.
pub struct InputHandler;

impl InputHandler {
    /// `q`, `Q` and Esc quit; another character executes the first match
    /// whose keyboard shortcut it is; failing that, digit `n` (1 to the
    /// number of matches) executes the `n`-th match listed, and any other key
    /// does nothing.
    pub fn handle_key_event(key: KeyInput, matches: &[MatchConfig]) -> (r: Option<DashboardAction>)
        ensures
            key_action(key, matches@, r),
    {
        match key {
            KeyInput::Char(c) => {
                if c == 'q' || c == 'Q' {
                    return Some(DashboardAction::Quit);
                }
                let n = matches.len();
                let mut i: usize = 0;
                while i < n
                    invariant
                        n == matches@.len(),
                        i <= n,
                        key == KeyInput::Char(c),
                        c != 'q' && c != 'Q',
                        forall|j: int| 0 <= j < i ==> #[trigger] matches@[j].keyboard_shortcut != Some(
                            c,
                        ),
                    decreases n - i,
                {
                    if let Some(shortcut) = matches[i].keyboard_shortcut {
                        if shortcut == c {
                            let r = Some(DashboardAction::ExecuteMatch(matches[i].id.clone()));
                            proof {
                                assert forall|k: int| #[trigger]
                                    first_shortcut(matches@, c, k) implies k == i by {
                                    if k < i {
                                    } else if k > i {
                                        assert(matches@[i as int].keyboard_shortcut != Some(c));
                                    }
                                }
                                assert(first_shortcut(matches@, c, i as int));
                            }
                            return r;
                        }
                    }
                    i = i + 1;
                }
                assert forall|k: int| !first_shortcut(matches@, c, k) by {
                    if 0 <= k < n {
                        assert(matches@[k].keyboard_shortcut != Some(c));
                    }
                }
                if '0' <= c && c <= '9' {
                    let index = (c as u32 - '0' as u32) as usize;
                    if index > 0 && index <= n {
                        return Some(DashboardAction::ExecuteMatch(matches[index - 1].id.clone()));
                    }
                }
                None
            },
            KeyInput::Esc => Some(DashboardAction::Quit),
            KeyInput::Other => None,
        }
    }
}


/// How a row of the match list is triggered.
#[derive(Debug, Clone, Copy, PartialEq, Eq, Structural)]
pub enum RowKey {
    /// The match's own shortcut.
    Shortcut(char),
    /// Its 1-based place in the list, typed as a digit.
    Position(usize),
}

/// One row of the match list.
pub struct DashboardRow {
    pub key: RowKey,
    pub name: String,
}

/// The longest name, in UTF-8 bytes, that a row shows whole.
pub const NAME_WIDTH: usize = 50;

/// How many bytes of a longer name a row keeps before the ellipsis.
pub const NAME_KEPT: usize = 47;

/// The name a row shows: names longer than 50 bytes keep their first 47
/// bytes, then `...`.
pub open spec fn display_name(name: Seq<char>) -> Seq<char> {
    if encode_utf8(name).len() > NAME_WIDTH {
        decode_utf8(encode_utf8(name).subrange(0, NAME_KEPT as int)) + "..."@
    } else {
        name
    }
}

/// Every name longer than 50 bytes can be cut after its first 47 bytes
/// without splitting a character.
pub open spec fn names_cuttable(matches: Seq<MatchConfig>) -> bool {
    forall|i: int|
        0 <= i < matches.len() && encode_utf8(#[trigger] matches[i].name@).len() > NAME_WIDTH
            ==> is_char_boundary(encode_utf8(matches[i].name@), NAME_KEPT as int)
}

/// The key that row `i` of the list shows for `config`.
pub open spec fn row_key(config: MatchConfig, i: int) -> RowKey {
    match config.keyboard_shortcut {
        Some(c) => RowKey::Shortcut(c),
        None => RowKey::Position((i + 1) as usize),
    }
}

/// The notice shown in place of the match list when no match is configured.
pub open spec fn no_matches_notice() -> Seq<char> {
    "No matches configured. Please add matches to start trading."@
}

/// The status line: the feedback of the last execution, or the ready line
/// before any.
pub open spec fn status_text(feedback: Option<Seq<char>>) -> Seq<char> {
    match feedback {
        Some(f) => "Status: "@ + f,
        None => "Status: Ready | Latency: < 2ms execution time"@,
    }
}

/// What the match area of the dashboard shows.
pub enum MatchList {
    /// No match is configured: the notice to show.
    NoMatches(String),
    /// One row per match, in list order.
    Rows(Vec<DashboardRow>),
}

/// The dashboard below its fixed header: the match area and the status line.
pub struct DashboardScreen {
    pub matches: MatchList,
    pub status: String,
}

/// Lays out the dashboard's match list.
pub struct DashboardRenderer;

impl DashboardRenderer {
    /// One row per match, in list order.
    pub fn dashboard_rows(configs: &[MatchConfig]) -> (r: Vec<DashboardRow>)
        requires
            names_cuttable(configs@),
        ensures
            r@.len() == configs@.len(),
            forall|i: int|
                0 <= i < r@.len() ==> {
                    &&& (#[trigger] r@[i]).key == row_key(configs@[i], i)
                    &&& r@[i].name@ == display_name(configs@[i].name@)
                },
    {
        let n = configs.len();
        let mut rows: Vec<DashboardRow> = Vec::new();
        let mut i: usize = 0;
        while i < n
            invariant
                n == configs@.len(),
                i <= n,
                names_cuttable(configs@),
                rows@.len() == i,
                forall|j: int|
                    0 <= j < i ==> {
                        &&& (#[trigger] rows@[j]).key == row_key(configs@[j], j)
                        &&& rows@[j].name@ == display_name(configs@[j].name@)
                    },
            decreases n - i,
        {
            let row = Self::row(&configs[i], i);
            rows.push(row);
            i = i + 1;
        }
        rows
    }

    /// The dashboard for the listed matches and the last feedback: the
    /// notice when there is no match, else one row per match; then the
    /// status line.
    pub fn render_dashboard(configs: &[MatchConfig], feedback: Option<&str>) -> (r: DashboardScreen)
        requires
            names_cuttable(configs@),
        ensures
            r.status@ == status_text(
                match feedback {
                    Some(f) => Some(f@),
                    None => None,
                },
            ),
            configs@.len() == 0 <==> r.matches is NoMatches,
            r.matches matches MatchList::NoMatches(t) ==> t@ == no_matches_notice(),
            r.matches matches MatchList::Rows(rows) ==> {
                &&& rows@.len() == configs@.len()
                &&& forall|i: int|
                    0 <= i < rows@.len() ==> {
                        &&& (#[trigger] rows@[i]).key == row_key(configs@[i], i)
                        &&& rows@[i].name@ == display_name(configs@[i].name@)
                    }
            },
    {
        proof {
            reveal_strlit("No matches configured. Please add matches to start trading.");
            reveal_strlit("Status: ");
            reveal_strlit("Status: Ready | Latency: < 2ms execution time");
        }
        let matches = if configs.len() == 0 {
            MatchList::NoMatches(String::from_str("No matches configured. Please add matches to start trading."))
        } else {
            MatchList::Rows(Self::dashboard_rows(configs))
        };
        let status = match feedback {
            Some(f) => String::from_str("Status: ").concat(f),
            None => String::from_str("Status: Ready | Latency: < 2ms execution time"),
        };
        DashboardScreen { matches, status }
    }

    fn row(config: &MatchConfig, i: usize) -> (r: DashboardRow)
        requires
            i < usize::MAX,
            encode_utf8(config.name@).len() > NAME_WIDTH ==> is_char_boundary(
                encode_utf8(config.name@),
                NAME_KEPT as int,
            ),
        ensures
            r.key == row_key(*config, i as int),
            r.name@ == display_name(config.name@),
    {
        let key = match config.keyboard_shortcut {
            Some(c) => RowKey::Shortcut(c),
            None => RowKey::Position(i + 1),
        };
        DashboardRow { key, name: Self::display_name(&config.name) }
    }

    fn display_name(name: &String) -> (r: String)
        requires
            encode_utf8(name@).len() > NAME_WIDTH ==> is_char_boundary(
                encode_utf8(name@),
                NAME_KEPT as int,
            ),
        ensures
            r@ == display_name(name@),
    {
        let s = name.as_str();
        if s.as_bytes().len() > NAME_WIDTH {
            let (head, _) = s.split_at(NAME_KEPT);
            let r = String::from_str(head).concat("...");
            proof {
                reveal_strlit("...");
                encode_utf8_decode_utf8(head@);
            }
            r
        } else {
            name.clone()
        }
    }
}

/// The decimal digit character of `d` (`0 <= d < 10`).
pub open spec fn digit_char(d: nat) -> char {
    if d == 0 { '0' } else if d == 1 { '1' } else if d == 2 { '2' } else if d == 3 { '3' }
    else if d == 4 { '4' } else if d == 5 { '5' } else if d == 6 { '6' } else if d == 7 { '7' }
    else if d == 8 { '8' } else { '9' }
}

/// The decimal numeral of `n`, without leading zeros.
pub open spec fn decimal(n: nat) -> Seq<char>
    decreases n,
{
    if n < 10 {
        seq![digit_char(n)]
    } else {
        decimal(n / 10).push(digit_char(n % 10))
    }
}

fn digit_str(d: u64) -> (r: &'static str)
    requires
        d < 10,
    ensures
        r@ == seq![digit_char(d as nat)],
{
    proof {
        reveal_strlit("0");
        reveal_strlit("1");
        reveal_strlit("2");
        reveal_strlit("3");
        reveal_strlit("4");
        reveal_strlit("5");
        reveal_strlit("6");
        reveal_strlit("7");
        reveal_strlit("8");
        reveal_strlit("9");
    }
    if d == 0 { "0" } else if d == 1 { "1" } else if d == 2 { "2" } else if d == 3 { "3" }
    else if d == 4 { "4" } else if d == 5 { "5" } else if d == 6 { "6" } else if d == 7 { "7" }
    else if d == 8 { "8" } else { "9" }
}

/// Appends the decimal numeral of `n` to `s`.
fn push_decimal(s: &mut String, n: u64)
    ensures
        final(s)@ == old(s)@ + decimal(n as nat),
    decreases n,
{
    if n >= 10 {
        push_decimal(s, n / 10);
    }
    s.append(digit_str(n % 10));
    proof {
        if n >= 10 {
            assert(decimal(n as nat) == decimal((n / 10) as nat).push(digit_char((n % 10) as nat)));
        }
    }
}

/// The status line after the keyboard asked to execute `match_id`.
pub open spec fn feedback_text(match_id: Seq<char>, outcome: Result<(), ManagerError>, elapsed_ms: nat) -> Seq<char> {
    match outcome {
        Ok(()) => "\u{2705} SUCCESS! Match: "@ + match_id + " | Time: "@ + decimal(elapsed_ms) + "ms"@,
        Err(e) => "\u{274c} FAILED! Match: "@ + match_id + " | Error: "@ + manager_error_message(e),
    }
}

/// Reports the outcome of keyboard-triggered executions.
pub struct DashboardController;

impl DashboardController {
    /// Executes match `match_id` through `manager` and returns the status
    /// line: a success with the time the call took, or the failure with its
    /// message.
    pub fn execute_match(manager: &mut MatchManager, match_id: &str) -> (r: String)
        ensures
            exists|x: Result<(), ManagerError>|
                #[trigger] manager_execute_step(*old(manager), *final(manager), match_id@, x) && exists|
                    ms: nat,
                | r@ == #[trigger] feedback_text(match_id@, x, ms),
    {
        let start_time = instant_now();
        let outcome = manager.execute_match(match_id);
        let elapsed = elapsed_millis(&start_time);
        let r = Self::feedback(match_id, &outcome, elapsed);
        assert(manager_execute_step(*old(manager), *manager, match_id@, outcome));
        assert(r@ == feedback_text(match_id@, outcome, elapsed as nat));
        r
    }

    /// The status line for an execution of `match_id` that took
    /// `elapsed_ms` milliseconds and ended with `outcome`.
    pub fn feedback(match_id: &str, outcome: &Result<(), ManagerError>, elapsed_ms: u64) -> (r: String)
        ensures
            r@ == feedback_text(match_id@, *outcome, elapsed_ms as nat),
    {
        proof {
            reveal_strlit("\u{2705} SUCCESS! Match: ");
            reveal_strlit(" | Time: ");
            reveal_strlit("ms");
            reveal_strlit("\u{274c} FAILED! Match: ");
            reveal_strlit(" | Error: ");
        }
        match outcome {
            Ok(()) => {
                let mut s = String::from_str("\u{2705} SUCCESS! Match: ");
                s.append(match_id);
                s.append(" | Time: ");
                push_decimal(&mut s, elapsed_ms);
                s.append("ms");
                s
            },
            Err(e) => {
                let mut s = String::from_str("\u{274c} FAILED! Match: ");
                s.append(match_id);
                s.append(" | Error: ");
                let m = e.message();
                s.append(m.as_str());
                s
            },
        }
    }
}

} // verus!
