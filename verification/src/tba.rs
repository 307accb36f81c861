//! The match feed: match summaries and the latest-completed rule.
//!
//! The feed returns a list of match summaries; the bot only reads the
//! competition level, the match number and whether a winning alliance
//! was recorded. The progress scalar follows the highest-numbered
//! qualification match that has an outcome.

use vstd::prelude::*;

use crate::text::str_eq;

verus! {

/// The competition level of a match, as the feed codes it.
#[derive(Debug, Clone, Copy, PartialEq, Eq, Structural)]
pub enum CompLevel {
    /// Code `qm`: a qualification match.
    Qual,
    /// Code `ef`: an octofinal (eighth-final) match.
    Ef,
    /// Code `qf`: a quarterfinal match.
    QuarterFinal,
    /// Code `sf`: a semifinal match.
    SemiFinal,
    /// Code `f`: a final match.
    Final,
}

/// The recorded winner of a match. The feed codes the absence of a
/// winner on a finished match as an empty value, `Neither` here.
#[derive(Debug, Clone, Copy, PartialEq, Eq, Structural)]
pub enum WinningAlliance {
    Red,
    Blue,
    Neither,
}

/// A match summary as the bot reads it: identity and keys, the
/// competition level, the match number, the optional outcome, and the
/// feed's optional timestamps.
#[derive(Debug, PartialEq)]
pub struct MatchSimple {
    pub key: String,
    pub comp_level: CompLevel,
    pub match_number: i32,
    pub winning_alliance: Option<WinningAlliance>,
    pub event_key: String,
    pub time: Option<u64>,
    pub predicted_time: Option<u64>,
    pub actual_time: Option<u64>,
}

/// The competition level a feed code stands for, if any.
pub open spec fn level_of_code(s: Seq<char>) -> Option<CompLevel> {
    if s == "qm"@ {
        Some(CompLevel::Qual)
    } else if s == "ef"@ {
        Some(CompLevel::Ef)
    } else if s == "qf"@ {
        Some(CompLevel::QuarterFinal)
    } else if s == "sf"@ {
        Some(CompLevel::SemiFinal)
    } else if s == "f"@ {
        Some(CompLevel::Final)
    } else {
        None
    }
}

/// The feed's code for a competition level.
pub open spec fn code_of_level(l: CompLevel) -> Seq<char> {
    match l {
        CompLevel::Qual => "qm"@,
        CompLevel::Ef => "ef"@,
        CompLevel::QuarterFinal => "qf"@,
        CompLevel::SemiFinal => "sf"@,
        CompLevel::Final => "f"@,
    }
}

/// The alliance a feed code stands for, if any; the empty code stands
/// for a recorded result without a winner.
pub open spec fn alliance_of_code(s: Seq<char>) -> Option<WinningAlliance> {
    if s == "red"@ {
        Some(WinningAlliance::Red)
    } else if s == "blue"@ {
        Some(WinningAlliance::Blue)
    } else if s == ""@ {
        Some(WinningAlliance::Neither)
    } else {
        None
    }
}

/// The feed's code for a winning alliance.
pub open spec fn code_of_alliance(a: WinningAlliance) -> Seq<char> {
    match a {
        WinningAlliance::Red => "red"@,
        WinningAlliance::Blue => "blue"@,
        WinningAlliance::Neither => ""@,
    }
}

impl CompLevel {
    /// Parses a feed code into a competition level.
    pub fn from_code(code: &str) -> (r: Option<CompLevel>)
        ensures
            r == level_of_code(code@),
    {
        if str_eq(code, "qm") {
            Some(CompLevel::Qual)
        } else if str_eq(code, "ef") {
            Some(CompLevel::Ef)
        } else if str_eq(code, "qf") {
            Some(CompLevel::QuarterFinal)
        } else if str_eq(code, "sf") {
            Some(CompLevel::SemiFinal)
        } else if str_eq(code, "f") {
            Some(CompLevel::Final)
        } else {
            None
        }
    }

    /// The feed code of this competition level.
    pub fn code(&self) -> (r: &'static str)
        ensures
            r@ == code_of_level(*self),
    {
        match self {
            CompLevel::Qual => "qm",
            CompLevel::Ef => "ef",
            CompLevel::QuarterFinal => "qf",
            CompLevel::SemiFinal => "sf",
            CompLevel::Final => "f",
        }
    }
}

impl WinningAlliance {
    /// Parses a feed code into a winning alliance.
    pub fn from_code(code: &str) -> (r: Option<WinningAlliance>)
        ensures
            r == alliance_of_code(code@),
    {
        if str_eq(code, "red") {
            Some(WinningAlliance::Red)
        } else if str_eq(code, "blue") {
            Some(WinningAlliance::Blue)
        } else if str_eq(code, "") {
            Some(WinningAlliance::Neither)
        } else {
            None
        }
    }

    /// The feed code of this winning alliance.
    pub fn code(&self) -> (r: &'static str)
        ensures
            r@ == code_of_alliance(*self),
    {
        match self {
            WinningAlliance::Red => "red",
            WinningAlliance::Blue => "blue",
            WinningAlliance::Neither => "",
        }
    }
}

/// Level codes parse back to the level they were printed from.
pub proof fn lemma_level_code_roundtrip(l: CompLevel)
    ensures
        level_of_code(code_of_level(l)) == Some(l),
{
    reveal_strlit("qm");
    reveal_strlit("ef");
    reveal_strlit("qf");
    reveal_strlit("sf");
    reveal_strlit("f");
    assert("ef"@[0] == 'e' && "qm"@[0] == 'q');
    assert("qf"@[0] == 'q' && "qf"@[1] == 'f' && "qm"@[1] == 'm');
    assert("sf"@[0] == 's');
    assert("f"@.len() == 1 && "qm"@.len() == 2);
    match l {
        CompLevel::Qual => assert(level_of_code("qm"@) == Some(CompLevel::Qual)),
        CompLevel::Ef => assert(level_of_code("ef"@) == Some(CompLevel::Ef)),
        CompLevel::QuarterFinal => assert(level_of_code("qf"@) == Some(CompLevel::QuarterFinal)),
        CompLevel::SemiFinal => assert(level_of_code("sf"@) == Some(CompLevel::SemiFinal)),
        CompLevel::Final => assert(level_of_code("f"@) == Some(CompLevel::Final)),
    }
}

/// Alliance codes parse back to the alliance they were printed from.
pub proof fn lemma_alliance_code_roundtrip(a: WinningAlliance)
    ensures
        alliance_of_code(code_of_alliance(a)) == Some(a),
{
    reveal_strlit("red");
    reveal_strlit("blue");
    reveal_strlit("");
    assert("red"@.len() == 3 && "blue"@.len() == 4 && ""@.len() == 0);
    match a {
        WinningAlliance::Red => assert(alliance_of_code("red"@) == Some(WinningAlliance::Red)),
        WinningAlliance::Blue => assert(alliance_of_code("blue"@) == Some(WinningAlliance::Blue)),
        WinningAlliance::Neither => assert(alliance_of_code(""@) == Some(
            WinningAlliance::Neither,
        )),
    }
}

/// A qualification match with a recorded outcome: what the progress
/// rule counts as completed.
pub open spec fn completed_qual(m: MatchSimple) -> bool {
    m.comp_level == CompLevel::Qual && m.winning_alliance is Some
}

/// The latest completed match: the highest match number among the
/// qualification matches whose outcome is recorded, or nothing when no
/// qualification match has finished yet.
pub fn latest_completed_match(ms: &Vec<MatchSimple>) -> (r: Option<i32>)
    ensures
        match r {
            Some(n) => {
                &&& exists|i: int|
                    0 <= i < ms@.len() && #[trigger] completed_qual(ms@[i]) && ms@[i].match_number
                        == n
                &&& forall|j: int|
                    0 <= j < ms@.len() && #[trigger] completed_qual(ms@[j]) ==> ms@[j].match_number
                        <= n
            },
            None => forall|j: int| 0 <= j < ms@.len() ==> !#[trigger] completed_qual(ms@[j]),
        },
{
    let mut best: Option<i32> = None;
    let mut i: usize = 0;
    while i < ms.len()
        invariant
            i <= ms@.len(),
            match best {
                Some(n) => {
                    &&& exists|k: int|
                        0 <= k < i && #[trigger] completed_qual(ms@[k]) && ms@[k].match_number == n
                    &&& forall|j: int|
                        0 <= j < i && #[trigger] completed_qual(ms@[j]) ==> ms@[j].match_number
                            <= n
                },
                None => forall|j: int| 0 <= j < i ==> !#[trigger] completed_qual(ms@[j]),
            },
        decreases ms@.len() - i,
    {
        let m = &ms[i];
        if m.comp_level == CompLevel::Qual && m.winning_alliance.is_some() {
            assert(completed_qual(ms@[i as int]));
            match best {
                None => {
                    best = Some(m.match_number);
                },
                Some(n) => {
                    if m.match_number > n {
                        best = Some(m.match_number);
                    }
                },
            }
        }
        i = i + 1;
    }
    best
}

} // verus!
