//! Where the reference players live, and the shape of a recorded test vector.
use vstd::prelude::*;

verus! {

/// One challenge and its expected answer.
#[derive(Debug, Clone, Copy)]
pub struct TestStep {
    pub input: &'static str,
    pub expected: &'static str,
}

/// The test vectors of one player: the variants to try (all when `None`) and the
/// `n` and `sig` steps.
#[derive(Debug, Clone)]
pub struct TestCase {
    pub player: &'static str,
    pub variants: Option<Vec<&'static str>>,
    pub n: Vec<TestStep>,
    pub sig: Vec<TestStep>,
}

/// The path of each player variant's script, relative to the player directory.
pub fn get_player_paths() -> (r: Vec<(&'static str, &'static str)>)
    ensures
        r@.len() == 9,
        r@[0].0@ == "main"@ && r@[0].1@ == "player_ias.vflset/en_US/base.js"@,
        r@[1].0@ == "tcc"@ && r@[1].1@ == "player_ias_tcc.vflset/en_US/base.js"@,
        r@[2].0@ == "tce"@ && r@[2].1@ == "player_ias_tce.vflset/en_US/base.js"@,
        r@[3].0@ == "es5"@ && r@[3].1@ == "player_es5.vflset/en_US/base.js"@,
        r@[4].0@ == "es6"@ && r@[4].1@ == "player_es6.vflset/en_US/base.js"@,
        r@[5].0@ == "tv"@ && r@[5].1@ == "tv-player-ias.vflset/tv-player-ias.js"@,
        r@[6].0@ == "tv_es6"@ && r@[6].1@ == "tv-player-es6.vflset/tv-player-es6.js"@,
        r@[7].0@ == "phone"@ && r@[7].1@ == "player-plasma-ias-phone-en_US.vflset/base.js"@,
        r@[8].0@ == "tablet"@ && r@[8].1@ == "player-plasma-ias-tablet-en_US.vflset/base.js"@,
{
    let mut v: Vec<(&'static str, &'static str)> = Vec::new();
    v.push(("main", "player_ias.vflset/en_US/base.js"));
    v.push(("tcc", "player_ias_tcc.vflset/en_US/base.js"));
    v.push(("tce", "player_ias_tce.vflset/en_US/base.js"));
    v.push(("es5", "player_es5.vflset/en_US/base.js"));
    v.push(("es6", "player_es6.vflset/en_US/base.js"));
    v.push(("tv", "tv-player-ias.vflset/tv-player-ias.js"));
    v.push(("tv_es6", "tv-player-es6.vflset/tv-player-es6.js"));
    v.push(("phone", "player-plasma-ias-phone-en_US.vflset/base.js"));
    v.push(("tablet", "player-plasma-ias-tablet-en_US.vflset/base.js"));
    v
}

/// Where a downloaded player variant is cached: `players/<player>-<variant>`.
pub fn get_cache_path(player: &str, variant: &str) -> (r: String)
    ensures
        r@ == "players/"@ + player@ + "-"@ + variant@,
{
    let mut s = String::from_str("players/");
    s.append(player);
    s.append("-");
    s.append(variant);
    s
}

} // verus!
