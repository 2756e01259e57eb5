//! The match list as the configuration file states it.

use vstd::prelude::*;
use crate::match_engine;

verus! {

/// One `[[matches]]` entry of the configuration file; `max_price_limit` is a
/// binary64 bit pattern.
pub struct MatchConfig {
    pub id: String,
    pub name: String,
    pub goal_market_id: String,
    pub match_market_id: String,
    pub max_price_limit: u64,
    pub keyboard_shortcut: Option<char>,
}

/// The configuration: the matches to trade.
pub struct Config {
    pub matches: Vec<MatchConfig>,
}

/// `m` is the match configuration that entry `c` describes.
pub open spec fn describes(c: MatchConfig, m: match_engine::MatchConfig) -> bool {
    &&& m.id == c.id
    &&& m.name == c.name
    &&& m.goal_market_id == c.goal_market_id
    &&& m.match_market_id == c.match_market_id
    &&& m.max_price_limit == c.max_price_limit
    &&& m.keyboard_shortcut == c.keyboard_shortcut
}

impl Config {
    /// The configured matches, in file order.
    pub fn get_match_configs(&self) -> (r: Vec<match_engine::MatchConfig>)
        ensures
            r@.len() == self.matches@.len(),
            forall|i: int| 0 <= i < r@.len() ==> describes(self.matches@[i], #[trigger] r@[i]),
    {
        let n = self.matches.len();
        let mut out: Vec<match_engine::MatchConfig> = Vec::new();
        let mut i: usize = 0;
        while i < n
            invariant
                n == self.matches@.len(),
                i <= n,
                out@.len() == i,
                forall|j: int| 0 <= j < i ==> describes(self.matches@[j], #[trigger] out@[j]),
            decreases n - i,
        {
            let m = &self.matches[i];
            out.push(
                match_engine::MatchConfig::new(
                    m.id.clone(),
                    m.name.clone(),
                    m.goal_market_id.clone(),
                    m.match_market_id.clone(),
                    m.max_price_limit,
                    m.keyboard_shortcut,
                ),
            );
            i = i + 1;
        }
        out
    }
}

/// The bit pattern of the binary64 value 0.95, the price limit of the
/// default matches.
pub const DEFAULT_PRICE_LIMIT: u64 = 0x3FEE_6666_6666_6666;

/// `c` is the entry with these fields, the default price limit, and the
/// shortcut `key`.
pub open spec fn is_entry(
    c: MatchConfig,
    id: Seq<char>,
    name: Seq<char>,
    goal: Seq<char>,
    result: Seq<char>,
    key: char,
) -> bool {
    &&& c.id@ == id
    &&& c.name@ == name
    &&& c.goal_market_id@ == goal
    &&& c.match_market_id@ == result
    &&& c.max_price_limit == DEFAULT_PRICE_LIMIT
    &&& c.keyboard_shortcut == Some(key)
}

fn entry(id: &str, name: &str, goal: &str, result: &str, key: char) -> (r: MatchConfig)
    ensures
        is_entry(r, id@, name@, goal@, result@, key),
{
    MatchConfig {
        id: String::from_str(id),
        name: String::from_str(name),
        goal_market_id: String::from_str(goal),
        match_market_id: String::from_str(result),
        max_price_limit: DEFAULT_PRICE_LIMIT,
        keyboard_shortcut: Some(key),
    }
}

/// The configuration used when no file can be read: three matches, keys
/// `1` to `3`, each with the price limit 0.95.
pub fn create_default_config() -> (r: Config)
    ensures
        r.matches@.len() == 3,
        is_entry(
            r.matches@[0],
            "match_1"@,
            "Arsenal vs Chelsea"@,
            "goal_market_arsenal_chelsea"@,
            "match_result_arsenal_chelsea"@,
            '1',
        ),
        is_entry(
            r.matches@[1],
            "match_2"@,
            "Real Madrid vs Barcelona"@,
            "goal_market_real_barcelona"@,
            "match_result_real_barcelona"@,
            '2',
        ),
        is_entry(
            r.matches@[2],
            "match_3"@,
            "PSG vs Marseille"@,
            "goal_market_psg_marseille"@,
            "match_result_psg_marseille"@,
            '3',
        ),
{
    let mut matches: Vec<MatchConfig> = Vec::new();
    matches.push(
        entry(
            "match_1",
            "Arsenal vs Chelsea",
            "goal_market_arsenal_chelsea",
            "match_result_arsenal_chelsea",
            '1',
        ),
    );
    matches.push(
        entry(
            "match_2",
            "Real Madrid vs Barcelona",
            "goal_market_real_barcelona",
            "match_result_real_barcelona",
            '2',
        ),
    );
    matches.push(
        entry("match_3", "PSG vs Marseille", "goal_market_psg_marseille", "match_result_psg_marseille", '3'),
    );
    Config { matches }
}

} // verus!
