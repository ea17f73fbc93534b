//! The metrics of CVSS v2: one type of levels per axis, with the weight of
//! each level, and the metric type that a vector is made of.

use crate::grammar::{is_plain, same, shape, spell, token, Metric};
use vstd::prelude::*;
use std::cmp::Ordering;
use vstd::std_specs::cmp::{PartialEqSpecImpl, PartialOrdSpecImpl};
use vstd::string::*;

verus! {

/// Access Vector.
#[derive(Clone, Copy, Debug, PartialEq, Eq, PartialOrd, Ord, Structural)]
pub enum AV {
    /// Network.
    N,
    /// Adjacent Network.
    A,
    /// Local.
    L,
}

impl AV {
    /// The weight of the level, in thousandths.
    #[verifier::allow_in_spec]
    pub fn value(&self) -> u32
        returns
            (match self {
                AV::N => 1000u32,
                AV::A => 646u32,
                AV::L => 395u32,
            }),
    {
        match self {
            AV::N => 1000,
            AV::A => 646,
            AV::L => 395,
        }
    }

    /// The code of the level, as a vector string writes it.
    #[verifier::allow_in_spec]
    pub fn as_str(&self) -> &'static str
        returns
            (match self {
                AV::N => "N",
                AV::A => "A",
                AV::L => "L",
            }),
    {
        match self {
            AV::N => "N",
            AV::A => "A",
            AV::L => "L",
        }
    }

    /// The level that the code names, if a vector string can name one so.
    pub fn from_code(code: &str) -> (r: Option<AV>)
        ensures
            match r {
                Some(x) => x.as_str()@ == code@,
                None => forall|x: AV| #[trigger] x.as_str()@ != code@,
            },
    {
        if same(code, "N") {
            Some(AV::N)
        } else if same(code, "A") {
            Some(AV::A)
        } else if same(code, "L") {
            Some(AV::L)
        } else {
            None
        }
    }

    proof fn lemma_code_plain(self)
        ensures
            is_plain(self.as_str()@),
    {
        reveal_strlit("N");
        reveal_strlit("A");
        reveal_strlit("L");
    }
}

/// Access Complexity.
#[derive(Clone, Copy, Debug, PartialEq, Eq, PartialOrd, Ord, Structural)]
pub enum AC {
    /// High.
    H,
    /// Medium.
    M,
    /// Low.
    L,
}

impl AC {
    /// The weight of the level, in thousandths.
    #[verifier::allow_in_spec]
    pub fn value(&self) -> u32
        returns
            (match self {
                AC::H => 350u32,
                AC::M => 610u32,
                AC::L => 710u32,
            }),
    {
        match self {
            AC::H => 350,
            AC::M => 610,
            AC::L => 710,
        }
    }

    /// The code of the level, as a vector string writes it.
    #[verifier::allow_in_spec]
    pub fn as_str(&self) -> &'static str
        returns
            (match self {
                AC::H => "H",
                AC::M => "M",
                AC::L => "L",
            }),
    {
        match self {
            AC::H => "H",
            AC::M => "M",
            AC::L => "L",
        }
    }

    /// The level that the code names, if a vector string can name one so.
    pub fn from_code(code: &str) -> (r: Option<AC>)
        ensures
            match r {
                Some(x) => x.as_str()@ == code@,
                None => forall|x: AC| #[trigger] x.as_str()@ != code@,
            },
    {
        if same(code, "H") {
            Some(AC::H)
        } else if same(code, "M") {
            Some(AC::M)
        } else if same(code, "L") {
            Some(AC::L)
        } else {
            None
        }
    }

    proof fn lemma_code_plain(self)
        ensures
            is_plain(self.as_str()@),
    {
        reveal_strlit("H");
        reveal_strlit("M");
        reveal_strlit("L");
    }
}

/// Authentication.
#[derive(Clone, Copy, Debug, PartialEq, Eq, PartialOrd, Ord, Structural)]
pub enum AU {
    /// Multiple.
    M,
    /// Single.
    S,
    /// None.
    N,
}

impl AU {
    /// The weight of the level, in thousandths.
    #[verifier::allow_in_spec]
    pub fn value(&self) -> u32
        returns
            (match self {
                AU::M => 450u32,
                AU::S => 560u32,
                AU::N => 704u32,
            }),
    {
        match self {
            AU::M => 450,
            AU::S => 560,
            AU::N => 704,
        }
    }

    /// The code of the level, as a vector string writes it.
    #[verifier::allow_in_spec]
    pub fn as_str(&self) -> &'static str
        returns
            (match self {
                AU::M => "M",
                AU::S => "S",
                AU::N => "N",
            }),
    {
        match self {
            AU::M => "M",
            AU::S => "S",
            AU::N => "N",
        }
    }

    /// The level that the code names, if a vector string can name one so.
    pub fn from_code(code: &str) -> (r: Option<AU>)
        ensures
            match r {
                Some(x) => x.as_str()@ == code@,
                None => forall|x: AU| #[trigger] x.as_str()@ != code@,
            },
    {
        if same(code, "M") {
            Some(AU::M)
        } else if same(code, "S") {
            Some(AU::S)
        } else if same(code, "N") {
            Some(AU::N)
        } else {
            None
        }
    }

    proof fn lemma_code_plain(self)
        ensures
            is_plain(self.as_str()@),
    {
        reveal_strlit("M");
        reveal_strlit("S");
        reveal_strlit("N");
    }
}

/// Confidentiality Impact.
#[derive(Clone, Copy, Debug, PartialEq, Eq, PartialOrd, Ord, Structural)]
pub enum C {
    /// None.
    N,
    /// Partial.
    P,
    /// Complete.
    C,
}

impl C {
    /// The weight of the level, in thousandths.
    #[verifier::allow_in_spec]
    pub fn value(&self) -> u32
        returns
            (match self {
                C::N => 0u32,
                C::P => 275u32,
                C::C => 660u32,
            }),
    {
        match self {
            C::N => 0,
            C::P => 275,
            C::C => 660,
        }
    }

    /// The code of the level, as a vector string writes it.
    #[verifier::allow_in_spec]
    pub fn as_str(&self) -> &'static str
        returns
            (match self {
                C::N => "N",
                C::P => "P",
                C::C => "C",
            }),
    {
        match self {
            C::N => "N",
            C::P => "P",
            C::C => "C",
        }
    }

    /// The level that the code names, if a vector string can name one so.
    pub fn from_code(code: &str) -> (r: Option<C>)
        ensures
            match r {
                Some(x) => x.as_str()@ == code@,
                None => forall|x: C| #[trigger] x.as_str()@ != code@,
            },
    {
        if same(code, "N") {
            Some(C::N)
        } else if same(code, "P") {
            Some(C::P)
        } else if same(code, "C") {
            Some(C::C)
        } else {
            None
        }
    }

    proof fn lemma_code_plain(self)
        ensures
            is_plain(self.as_str()@),
    {
        reveal_strlit("N");
        reveal_strlit("P");
        reveal_strlit("C");
    }
}

/// Integrity Impact.
#[derive(Clone, Copy, Debug, PartialEq, Eq, PartialOrd, Ord, Structural)]
pub enum I {
    /// None.
    N,
    /// Partial.
    P,
    /// Complete.
    C,
}

impl I {
    /// The weight of the level, in thousandths.
    #[verifier::allow_in_spec]
    pub fn value(&self) -> u32
        returns
            (match self {
                I::N => 0u32,
                I::P => 275u32,
                I::C => 660u32,
            }),
    {
        match self {
            I::N => 0,
            I::P => 275,
            I::C => 660,
        }
    }

    /// The code of the level, as a vector string writes it.
    #[verifier::allow_in_spec]
    pub fn as_str(&self) -> &'static str
        returns
            (match self {
                I::N => "N",
                I::P => "P",
                I::C => "C",
            }),
    {
        match self {
            I::N => "N",
            I::P => "P",
            I::C => "C",
        }
    }

    /// The level that the code names, if a vector string can name one so.
    pub fn from_code(code: &str) -> (r: Option<I>)
        ensures
            match r {
                Some(x) => x.as_str()@ == code@,
                None => forall|x: I| #[trigger] x.as_str()@ != code@,
            },
    {
        if same(code, "N") {
            Some(I::N)
        } else if same(code, "P") {
            Some(I::P)
        } else if same(code, "C") {
            Some(I::C)
        } else {
            None
        }
    }

    proof fn lemma_code_plain(self)
        ensures
            is_plain(self.as_str()@),
    {
        reveal_strlit("N");
        reveal_strlit("P");
        reveal_strlit("C");
    }
}

/// Availability Impact.
#[derive(Clone, Copy, Debug, PartialEq, Eq, PartialOrd, Ord, Structural)]
pub enum A {
    /// None.
    N,
    /// Partial.
    P,
    /// Complete.
    C,
}

impl A {
    /// The weight of the level, in thousandths.
    #[verifier::allow_in_spec]
    pub fn value(&self) -> u32
        returns
            (match self {
                A::N => 0u32,
                A::P => 275u32,
                A::C => 660u32,
            }),
    {
        match self {
            A::N => 0,
            A::P => 275,
            A::C => 660,
        }
    }

    /// The code of the level, as a vector string writes it.
    #[verifier::allow_in_spec]
    pub fn as_str(&self) -> &'static str
        returns
            (match self {
                A::N => "N",
                A::P => "P",
                A::C => "C",
            }),
    {
        match self {
            A::N => "N",
            A::P => "P",
            A::C => "C",
        }
    }

    /// The level that the code names, if a vector string can name one so.
    pub fn from_code(code: &str) -> (r: Option<A>)
        ensures
            match r {
                Some(x) => x.as_str()@ == code@,
                None => forall|x: A| #[trigger] x.as_str()@ != code@,
            },
    {
        if same(code, "N") {
            Some(A::N)
        } else if same(code, "P") {
            Some(A::P)
        } else if same(code, "C") {
            Some(A::C)
        } else {
            None
        }
    }

    proof fn lemma_code_plain(self)
        ensures
            is_plain(self.as_str()@),
    {
        reveal_strlit("N");
        reveal_strlit("P");
        reveal_strlit("C");
    }
}

/// Exploitability.
#[derive(Clone, Copy, Debug, PartialEq, Eq, PartialOrd, Ord, Structural)]
pub enum E {
    /// Unproven.
    U,
    /// Proof-of-Concept.
    POC,
    /// Functional.
    F,
    /// High.
    H,
    /// Not Defined.
    ND,
}

impl E {
    /// The weight of the level, in thousandths.
    #[verifier::allow_in_spec]
    pub fn value(&self) -> u32
        returns
            (match self {
                E::U => 850u32,
                E::POC => 900u32,
                E::F => 950u32,
                E::H => 1000u32,
                E::ND => 1000u32,
            }),
    {
        match self {
            E::U => 850,
            E::POC => 900,
            E::F => 950,
            E::H => 1000,
            E::ND => 1000,
        }
    }

    /// The code of the level, as a vector string writes it.
    #[verifier::allow_in_spec]
    pub fn as_str(&self) -> &'static str
        returns
            (match self {
                E::U => "U",
                E::POC => "POC",
                E::F => "F",
                E::H => "H",
                E::ND => "ND",
            }),
    {
        match self {
            E::U => "U",
            E::POC => "POC",
            E::F => "F",
            E::H => "H",
            E::ND => "ND",
        }
    }

    /// The level that the code names, if a vector string can name one so.
    pub fn from_code(code: &str) -> (r: Option<E>)
        ensures
            match r {
                Some(x) => x.as_str()@ == code@,
                None => forall|x: E| #[trigger] x.as_str()@ != code@,
            },
    {
        if same(code, "U") {
            Some(E::U)
        } else if same(code, "POC") {
            Some(E::POC)
        } else if same(code, "F") {
            Some(E::F)
        } else if same(code, "H") {
            Some(E::H)
        } else if same(code, "ND") {
            Some(E::ND)
        } else {
            None
        }
    }

    proof fn lemma_code_plain(self)
        ensures
            is_plain(self.as_str()@),
    {
        reveal_strlit("U");
        reveal_strlit("POC");
        reveal_strlit("F");
        reveal_strlit("H");
        reveal_strlit("ND");
    }
}

/// Remediation Level.
#[derive(Clone, Copy, Debug, PartialEq, Eq, PartialOrd, Ord, Structural)]
pub enum RL {
    /// Official Fix.
    OF,
    /// Temporary Fix.
    TF,
    /// Workaround.
    W,
    /// Unavailable.
    U,
    /// Not Defined.
    ND,
}

impl RL {
    /// The weight of the level, in thousandths.
    #[verifier::allow_in_spec]
    pub fn value(&self) -> u32
        returns
            (match self {
                RL::OF => 870u32,
                RL::TF => 900u32,
                RL::W => 950u32,
                RL::U => 1000u32,
                RL::ND => 1000u32,
            }),
    {
        match self {
            RL::OF => 870,
            RL::TF => 900,
            RL::W => 950,
            RL::U => 1000,
            RL::ND => 1000,
        }
    }

    /// The code of the level, as a vector string writes it.
    #[verifier::allow_in_spec]
    pub fn as_str(&self) -> &'static str
        returns
            (match self {
                RL::OF => "OF",
                RL::TF => "TF",
                RL::W => "W",
                RL::U => "U",
                RL::ND => "ND",
            }),
    {
        match self {
            RL::OF => "OF",
            RL::TF => "TF",
            RL::W => "W",
            RL::U => "U",
            RL::ND => "ND",
        }
    }

    /// Whether a vector string can name the level: it cannot name `ND`.
    pub open spec fn in_grammar(self) -> bool {
        self != RL::ND
    }

    /// The level that the code names, if a vector string can name one so.
    pub fn from_code(code: &str) -> (r: Option<RL>)
        ensures
            match r {
                Some(x) => x.in_grammar() && x.as_str()@ == code@,
                None => forall|x: RL|
                    x.in_grammar() ==> #[trigger] x.as_str()@ != code@,
            },
    {
        if same(code, "OF") {
            Some(RL::OF)
        } else if same(code, "TF") {
            Some(RL::TF)
        } else if same(code, "W") {
            Some(RL::W)
        } else if same(code, "U") {
            Some(RL::U)
        } else {
            None
        }
    }

    proof fn lemma_code_plain(self)
        ensures
            is_plain(self.as_str()@),
    {
        reveal_strlit("OF");
        reveal_strlit("TF");
        reveal_strlit("W");
        reveal_strlit("U");
        reveal_strlit("ND");
    }
}

/// Report Confidence.
#[derive(Clone, Copy, Debug, PartialEq, Eq, PartialOrd, Ord, Structural)]
pub enum RC {
    /// Unconfirmed.
    UC,
    /// Uncorroborated.
    UR,
    /// Confirmed.
    C,
    /// Not Defined.
    ND,
}

impl RC {
    /// The weight of the level, in thousandths.
    #[verifier::allow_in_spec]
    pub fn value(&self) -> u32
        returns
            (match self {
                RC::UC => 900u32,
                RC::UR => 950u32,
                RC::C => 1000u32,
                RC::ND => 1000u32,
            }),
    {
        match self {
            RC::UC => 900,
            RC::UR => 950,
            RC::C => 1000,
            RC::ND => 1000,
        }
    }

    /// The code of the level, as a vector string writes it.
    #[verifier::allow_in_spec]
    pub fn as_str(&self) -> &'static str
        returns
            (match self {
                RC::UC => "UC",
                RC::UR => "UR",
                RC::C => "C",
                RC::ND => "ND",
            }),
    {
        match self {
            RC::UC => "UC",
            RC::UR => "UR",
            RC::C => "C",
            RC::ND => "ND",
        }
    }

    /// The level that the code names, if a vector string can name one so.
    pub fn from_code(code: &str) -> (r: Option<RC>)
        ensures
            match r {
                Some(x) => x.as_str()@ == code@,
                None => forall|x: RC| #[trigger] x.as_str()@ != code@,
            },
    {
        if same(code, "UC") {
            Some(RC::UC)
        } else if same(code, "UR") {
            Some(RC::UR)
        } else if same(code, "C") {
            Some(RC::C)
        } else if same(code, "ND") {
            Some(RC::ND)
        } else {
            None
        }
    }

    proof fn lemma_code_plain(self)
        ensures
            is_plain(self.as_str()@),
    {
        reveal_strlit("UC");
        reveal_strlit("UR");
        reveal_strlit("C");
        reveal_strlit("ND");
    }
}

/// Collateral Damage Potential.
#[derive(Clone, Copy, Debug, PartialEq, Eq, PartialOrd, Ord, Structural)]
pub enum CDP {
    /// None.
    N,
    /// Low.
    L,
    /// Low-Medium.
    LM,
    /// Medium-High.
    MH,
    /// High.
    H,
    /// Not Defined.
    ND,
}

impl CDP {
    /// The weight of the level, in thousandths.
    #[verifier::allow_in_spec]
    pub fn value(&self) -> u32
        returns
            (match self {
                CDP::N => 0u32,
                CDP::L => 100u32,
                CDP::LM => 300u32,
                CDP::MH => 400u32,
                CDP::H => 500u32,
                CDP::ND => 0u32,
            }),
    {
        match self {
            CDP::N => 0,
            CDP::L => 100,
            CDP::LM => 300,
            CDP::MH => 400,
            CDP::H => 500,
            CDP::ND => 0,
        }
    }

    /// The code of the level, as a vector string writes it.
    #[verifier::allow_in_spec]
    pub fn as_str(&self) -> &'static str
        returns
            (match self {
                CDP::N => "N",
                CDP::L => "L",
                CDP::LM => "LM",
                CDP::MH => "MH",
                CDP::H => "H",
                CDP::ND => "ND",
            }),
    {
        match self {
            CDP::N => "N",
            CDP::L => "L",
            CDP::LM => "LM",
            CDP::MH => "MH",
            CDP::H => "H",
            CDP::ND => "ND",
        }
    }

    /// The level that the code names, if a vector string can name one so.
    pub fn from_code(code: &str) -> (r: Option<CDP>)
        ensures
            match r {
                Some(x) => x.as_str()@ == code@,
                None => forall|x: CDP| #[trigger] x.as_str()@ != code@,
            },
    {
        if same(code, "N") {
            Some(CDP::N)
        } else if same(code, "L") {
            Some(CDP::L)
        } else if same(code, "LM") {
            Some(CDP::LM)
        } else if same(code, "MH") {
            Some(CDP::MH)
        } else if same(code, "H") {
            Some(CDP::H)
        } else if same(code, "ND") {
            Some(CDP::ND)
        } else {
            None
        }
    }

    proof fn lemma_code_plain(self)
        ensures
            is_plain(self.as_str()@),
    {
        reveal_strlit("N");
        reveal_strlit("L");
        reveal_strlit("LM");
        reveal_strlit("MH");
        reveal_strlit("H");
        reveal_strlit("ND");
    }
}

/// Target Distribution.
#[derive(Clone, Copy, Debug, PartialEq, Eq, PartialOrd, Ord, Structural)]
pub enum TD {
    /// None.
    N,
    /// Low.
    L,
    /// Medium.
    M,
    /// High.
    H,
    /// Not Defined.
    ND,
}

impl TD {
    /// The weight of the level, in thousandths.
    #[verifier::allow_in_spec]
    pub fn value(&self) -> u32
        returns
            (match self {
                TD::N => 0u32,
                TD::L => 250u32,
                TD::M => 750u32,
                TD::H => 1000u32,
                TD::ND => 1000u32,
            }),
    {
        match self {
            TD::N => 0,
            TD::L => 250,
            TD::M => 750,
            TD::H => 1000,
            TD::ND => 1000,
        }
    }

    /// The code of the level, as a vector string writes it.
    #[verifier::allow_in_spec]
    pub fn as_str(&self) -> &'static str
        returns
            (match self {
                TD::N => "N",
                TD::L => "L",
                TD::M => "M",
                TD::H => "H",
                TD::ND => "ND",
            }),
    {
        match self {
            TD::N => "N",
            TD::L => "L",
            TD::M => "M",
            TD::H => "H",
            TD::ND => "ND",
        }
    }

    /// Whether a vector string can name the level: it cannot name `N`.
    pub open spec fn in_grammar(self) -> bool {
        self != TD::N
    }

    /// The level that the code names, if a vector string can name one so.
    pub fn from_code(code: &str) -> (r: Option<TD>)
        ensures
            match r {
                Some(x) => x.in_grammar() && x.as_str()@ == code@,
                None => forall|x: TD|
                    x.in_grammar() ==> #[trigger] x.as_str()@ != code@,
            },
    {
        if same(code, "L") {
            Some(TD::L)
        } else if same(code, "M") {
            Some(TD::M)
        } else if same(code, "H") {
            Some(TD::H)
        } else if same(code, "ND") {
            Some(TD::ND)
        } else {
            None
        }
    }

    proof fn lemma_code_plain(self)
        ensures
            is_plain(self.as_str()@),
    {
        reveal_strlit("N");
        reveal_strlit("L");
        reveal_strlit("M");
        reveal_strlit("H");
        reveal_strlit("ND");
    }
}

/// Confidentiality Requirement.
#[derive(Clone, Copy, Debug, PartialEq, Eq, PartialOrd, Ord, Structural)]
pub enum CR {
    /// None.
    N,
    /// Low.
    L,
    /// Medium.
    M,
    /// High.
    H,
    /// Not Defined.
    ND,
}

impl CR {
    /// The weight of the level, in thousandths.
    #[verifier::allow_in_spec]
    pub fn value(&self) -> u32
        returns
            (match self {
                CR::N => 0u32,
                CR::L => 500u32,
                CR::M => 1000u32,
                CR::H => 1510u32,
                CR::ND => 1000u32,
            }),
    {
        match self {
            CR::N => 0,
            CR::L => 500,
            CR::M => 1000,
            CR::H => 1510,
            CR::ND => 1000,
        }
    }

    /// The code of the level, as a vector string writes it.
    #[verifier::allow_in_spec]
    pub fn as_str(&self) -> &'static str
        returns
            (match self {
                CR::N => "N",
                CR::L => "L",
                CR::M => "M",
                CR::H => "H",
                CR::ND => "ND",
            }),
    {
        match self {
            CR::N => "N",
            CR::L => "L",
            CR::M => "M",
            CR::H => "H",
            CR::ND => "ND",
        }
    }

    /// Whether a vector string can name the level: it cannot name `N`.
    pub open spec fn in_grammar(self) -> bool {
        self != CR::N
    }

    /// The level that the code names, if a vector string can name one so.
    pub fn from_code(code: &str) -> (r: Option<CR>)
        ensures
            match r {
                Some(x) => x.in_grammar() && x.as_str()@ == code@,
                None => forall|x: CR|
                    x.in_grammar() ==> #[trigger] x.as_str()@ != code@,
            },
    {
        if same(code, "L") {
            Some(CR::L)
        } else if same(code, "M") {
            Some(CR::M)
        } else if same(code, "H") {
            Some(CR::H)
        } else if same(code, "ND") {
            Some(CR::ND)
        } else {
            None
        }
    }

    proof fn lemma_code_plain(self)
        ensures
            is_plain(self.as_str()@),
    {
        reveal_strlit("N");
        reveal_strlit("L");
        reveal_strlit("M");
        reveal_strlit("H");
        reveal_strlit("ND");
    }
}

/// Integrity Requirement.
#[derive(Clone, Copy, Debug, PartialEq, Eq, PartialOrd, Ord, Structural)]
pub enum IR {
    /// None.
    N,
    /// Low.
    L,
    /// Medium.
    M,
    /// High.
    H,
    /// Not Defined.
    ND,
}

impl IR {
    /// The weight of the level, in thousandths.
    #[verifier::allow_in_spec]
    pub fn value(&self) -> u32
        returns
            (match self {
                IR::N => 0u32,
                IR::L => 500u32,
                IR::M => 1000u32,
                IR::H => 1510u32,
                IR::ND => 1000u32,
            }),
    {
        match self {
            IR::N => 0,
            IR::L => 500,
            IR::M => 1000,
            IR::H => 1510,
            IR::ND => 1000,
        }
    }

    /// The code of the level, as a vector string writes it.
    #[verifier::allow_in_spec]
    pub fn as_str(&self) -> &'static str
        returns
            (match self {
                IR::N => "N",
                IR::L => "L",
                IR::M => "M",
                IR::H => "H",
                IR::ND => "ND",
            }),
    {
        match self {
            IR::N => "N",
            IR::L => "L",
            IR::M => "M",
            IR::H => "H",
            IR::ND => "ND",
        }
    }

    /// Whether a vector string can name the level: it cannot name `N`.
    pub open spec fn in_grammar(self) -> bool {
        self != IR::N
    }

    /// The level that the code names, if a vector string can name one so.
    pub fn from_code(code: &str) -> (r: Option<IR>)
        ensures
            match r {
                Some(x) => x.in_grammar() && x.as_str()@ == code@,
                None => forall|x: IR|
                    x.in_grammar() ==> #[trigger] x.as_str()@ != code@,
            },
    {
        if same(code, "L") {
            Some(IR::L)
        } else if same(code, "M") {
            Some(IR::M)
        } else if same(code, "H") {
            Some(IR::H)
        } else if same(code, "ND") {
            Some(IR::ND)
        } else {
            None
        }
    }

    proof fn lemma_code_plain(self)
        ensures
            is_plain(self.as_str()@),
    {
        reveal_strlit("N");
        reveal_strlit("L");
        reveal_strlit("M");
        reveal_strlit("H");
        reveal_strlit("ND");
    }
}

/// Availability Requirement.
#[derive(Clone, Copy, Debug, PartialEq, Eq, PartialOrd, Ord, Structural)]
pub enum AR {
    /// None.
    N,
    /// Low.
    L,
    /// Medium.
    M,
    /// High.
    H,
    /// Not Defined.
    ND,
}

impl AR {
    /// The weight of the level, in thousandths.
    #[verifier::allow_in_spec]
    pub fn value(&self) -> u32
        returns
            (match self {
                AR::N => 0u32,
                AR::L => 500u32,
                AR::M => 1000u32,
                AR::H => 1510u32,
                AR::ND => 1000u32,
            }),
    {
        match self {
            AR::N => 0,
            AR::L => 500,
            AR::M => 1000,
            AR::H => 1510,
            AR::ND => 1000,
        }
    }

    /// The code of the level, as a vector string writes it.
    #[verifier::allow_in_spec]
    pub fn as_str(&self) -> &'static str
        returns
            (match self {
                AR::N => "N",
                AR::L => "L",
                AR::M => "M",
                AR::H => "H",
                AR::ND => "ND",
            }),
    {
        match self {
            AR::N => "N",
            AR::L => "L",
            AR::M => "M",
            AR::H => "H",
            AR::ND => "ND",
        }
    }

    /// Whether a vector string can name the level: it cannot name `N`.
    pub open spec fn in_grammar(self) -> bool {
        self != AR::N
    }

    /// The level that the code names, if a vector string can name one so.
    pub fn from_code(code: &str) -> (r: Option<AR>)
        ensures
            match r {
                Some(x) => x.in_grammar() && x.as_str()@ == code@,
                None => forall|x: AR|
                    x.in_grammar() ==> #[trigger] x.as_str()@ != code@,
            },
    {
        if same(code, "L") {
            Some(AR::L)
        } else if same(code, "M") {
            Some(AR::M)
        } else if same(code, "H") {
            Some(AR::H)
        } else if same(code, "ND") {
            Some(AR::ND)
        } else {
            None
        }
    }

    proof fn lemma_code_plain(self)
        ensures
            is_plain(self.as_str()@),
    {
        reveal_strlit("N");
        reveal_strlit("L");
        reveal_strlit("M");
        reveal_strlit("H");
        reveal_strlit("ND");
    }
}

/// One metric of a CVSS v2 vector: an axis together with its level.
///
/// Two metrics are equal when they rate the same axis, whatever their levels,
/// and metrics are ordered by their axes.
#[derive(Clone, Copy, Debug)]
pub enum CVSSv2Metric {
    /// Access Vector, written `AV`.
    AccessVector(AV),
    /// Access Complexity, written `AC`.
    AccessComplexity(AC),
    /// Authentication, written `Au`.
    Authentication(AU),
    /// Confidentiality Impact, written `C`.
    Confidentiality(C),
    /// Integrity Impact, written `I`.
    Integrity(I),
    /// Availability Impact, written `A`.
    Availability(A),
    /// Exploitability, written `E`.
    Exploitability(E),
    /// Remediation Level, written `RL`.
    RemediationLevel(RL),
    /// Report Confidence, written `RC`.
    ReportConfidence(RC),
    /// Collateral Damage Potential, written `CDP`.
    CollateralDamagePotential(CDP),
    /// Target Distribution, written `TD`.
    TargetDistribution(TD),
    /// Confidentiality Requirement, written `CR`.
    ConfidentialityRequirement(CR),
    /// Integrity Requirement, written `IR`.
    IntegrityRequirement(IR),
    /// Availability Requirement, written `AR`.
    AvailabilityRequirement(AR),
}

impl CVSSv2Metric {
    /// The weight of the metric's level, in thousandths.
    #[verifier::allow_in_spec]
    pub fn value(&self) -> u32
        returns
            (match self {
                CVSSv2Metric::AccessVector(x) => x.value(),
                CVSSv2Metric::AccessComplexity(x) => x.value(),
                CVSSv2Metric::Authentication(x) => x.value(),
                CVSSv2Metric::Confidentiality(x) => x.value(),
                CVSSv2Metric::Integrity(x) => x.value(),
                CVSSv2Metric::Availability(x) => x.value(),
                CVSSv2Metric::Exploitability(x) => x.value(),
                CVSSv2Metric::RemediationLevel(x) => x.value(),
                CVSSv2Metric::ReportConfidence(x) => x.value(),
                CVSSv2Metric::CollateralDamagePotential(x) => x.value(),
                CVSSv2Metric::TargetDistribution(x) => x.value(),
                CVSSv2Metric::ConfidentialityRequirement(x) => x.value(),
                CVSSv2Metric::IntegrityRequirement(x) => x.value(),
                CVSSv2Metric::AvailabilityRequirement(x) => x.value(),
            }),
    {
        match self {
            CVSSv2Metric::AccessVector(x) => x.value(),
            CVSSv2Metric::AccessComplexity(x) => x.value(),
            CVSSv2Metric::Authentication(x) => x.value(),
            CVSSv2Metric::Confidentiality(x) => x.value(),
            CVSSv2Metric::Integrity(x) => x.value(),
            CVSSv2Metric::Availability(x) => x.value(),
            CVSSv2Metric::Exploitability(x) => x.value(),
            CVSSv2Metric::RemediationLevel(x) => x.value(),
            CVSSv2Metric::ReportConfidence(x) => x.value(),
            CVSSv2Metric::CollateralDamagePotential(x) => x.value(),
            CVSSv2Metric::TargetDistribution(x) => x.value(),
            CVSSv2Metric::ConfidentialityRequirement(x) => x.value(),
            CVSSv2Metric::IntegrityRequirement(x) => x.value(),
            CVSSv2Metric::AvailabilityRequirement(x) => x.value(),
        }
    }

    /// The token of the metric: the code of its axis, a colon, and the code
    /// of its level.
    pub fn to_string(&self) -> (s: String)
        ensures
            s@ == token(*self),
    {
        spell(self)
    }

    /// What the axis code of each metric is made of.
    pub proof fn lemma_axis_code_shape(self)
        ensures
            shape(self.axis_code()) == (match self {
                CVSSv2Metric::AccessVector(_) => (2nat, 'A', 'V', ' '),
                CVSSv2Metric::AccessComplexity(_) => (2nat, 'A', 'C', ' '),
                CVSSv2Metric::Authentication(_) => (2nat, 'A', 'u', ' '),
                CVSSv2Metric::Confidentiality(_) => (1nat, 'C', ' ', ' '),
                CVSSv2Metric::Integrity(_) => (1nat, 'I', ' ', ' '),
                CVSSv2Metric::Availability(_) => (1nat, 'A', ' ', ' '),
                CVSSv2Metric::Exploitability(_) => (1nat, 'E', ' ', ' '),
                CVSSv2Metric::RemediationLevel(_) => (2nat, 'R', 'L', ' '),
                CVSSv2Metric::ReportConfidence(_) => (2nat, 'R', 'C', ' '),
                CVSSv2Metric::CollateralDamagePotential(_) => (3nat, 'C', 'D', 'P'),
                CVSSv2Metric::TargetDistribution(_) => (2nat, 'T', 'D', ' '),
                CVSSv2Metric::ConfidentialityRequirement(_) => (2nat, 'C', 'R', ' '),
                CVSSv2Metric::IntegrityRequirement(_) => (2nat, 'I', 'R', ' '),
                CVSSv2Metric::AvailabilityRequirement(_) => (2nat, 'A', 'R', ' '),
            }),
    {
        reveal_strlit("AV");
        reveal_strlit("AC");
        reveal_strlit("Au");
        reveal_strlit("C");
        reveal_strlit("I");
        reveal_strlit("A");
        reveal_strlit("E");
        reveal_strlit("RL");
        reveal_strlit("RC");
        reveal_strlit("CDP");
        reveal_strlit("TD");
        reveal_strlit("CR");
        reveal_strlit("IR");
        reveal_strlit("AR");
    }

    /// What the level code of each metric is made of.
    pub proof fn lemma_level_code_shape(self)
        ensures
            shape(self.level_code()) == (match self {
                CVSSv2Metric::AccessVector(AV::N) => (1nat, 'N', ' ', ' '),
                CVSSv2Metric::AccessVector(AV::A) => (1nat, 'A', ' ', ' '),
                CVSSv2Metric::AccessVector(AV::L) => (1nat, 'L', ' ', ' '),
                CVSSv2Metric::AccessComplexity(AC::H) => (1nat, 'H', ' ', ' '),
                CVSSv2Metric::AccessComplexity(AC::M) => (1nat, 'M', ' ', ' '),
                CVSSv2Metric::AccessComplexity(AC::L) => (1nat, 'L', ' ', ' '),
                CVSSv2Metric::Authentication(AU::M) => (1nat, 'M', ' ', ' '),
                CVSSv2Metric::Authentication(AU::S) => (1nat, 'S', ' ', ' '),
                CVSSv2Metric::Authentication(AU::N) => (1nat, 'N', ' ', ' '),
                CVSSv2Metric::Confidentiality(C::N) => (1nat, 'N', ' ', ' '),
                CVSSv2Metric::Confidentiality(C::P) => (1nat, 'P', ' ', ' '),
                CVSSv2Metric::Confidentiality(C::C) => (1nat, 'C', ' ', ' '),
                CVSSv2Metric::Integrity(I::N) => (1nat, 'N', ' ', ' '),
                CVSSv2Metric::Integrity(I::P) => (1nat, 'P', ' ', ' '),
                CVSSv2Metric::Integrity(I::C) => (1nat, 'C', ' ', ' '),
                CVSSv2Metric::Availability(A::N) => (1nat, 'N', ' ', ' '),
                CVSSv2Metric::Availability(A::P) => (1nat, 'P', ' ', ' '),
                CVSSv2Metric::Availability(A::C) => (1nat, 'C', ' ', ' '),
                CVSSv2Metric::Exploitability(E::U) => (1nat, 'U', ' ', ' '),
                CVSSv2Metric::Exploitability(E::POC) => (3nat, 'P', 'O', 'C'),
                CVSSv2Metric::Exploitability(E::F) => (1nat, 'F', ' ', ' '),
                CVSSv2Metric::Exploitability(E::H) => (1nat, 'H', ' ', ' '),
                CVSSv2Metric::Exploitability(E::ND) => (2nat, 'N', 'D', ' '),
                CVSSv2Metric::RemediationLevel(RL::OF) => (2nat, 'O', 'F', ' '),
                CVSSv2Metric::RemediationLevel(RL::TF) => (2nat, 'T', 'F', ' '),
                CVSSv2Metric::RemediationLevel(RL::W) => (1nat, 'W', ' ', ' '),
                CVSSv2Metric::RemediationLevel(RL::U) => (1nat, 'U', ' ', ' '),
                CVSSv2Metric::RemediationLevel(RL::ND) => (2nat, 'N', 'D', ' '),
                CVSSv2Metric::ReportConfidence(RC::UC) => (2nat, 'U', 'C', ' '),
                CVSSv2Metric::ReportConfidence(RC::UR) => (2nat, 'U', 'R', ' '),
                CVSSv2Metric::ReportConfidence(RC::C) => (1nat, 'C', ' ', ' '),
                CVSSv2Metric::ReportConfidence(RC::ND) => (2nat, 'N', 'D', ' '),
                CVSSv2Metric::CollateralDamagePotential(CDP::N) => (1nat, 'N', ' ', ' '),
                CVSSv2Metric::CollateralDamagePotential(CDP::L) => (1nat, 'L', ' ', ' '),
                CVSSv2Metric::CollateralDamagePotential(CDP::LM) => (2nat, 'L', 'M', ' '),
                CVSSv2Metric::CollateralDamagePotential(CDP::MH) => (2nat, 'M', 'H', ' '),
                CVSSv2Metric::CollateralDamagePotential(CDP::H) => (1nat, 'H', ' ', ' '),
                CVSSv2Metric::CollateralDamagePotential(CDP::ND) => (2nat, 'N', 'D', ' '),
                CVSSv2Metric::TargetDistribution(TD::N) => (1nat, 'N', ' ', ' '),
                CVSSv2Metric::TargetDistribution(TD::L) => (1nat, 'L', ' ', ' '),
                CVSSv2Metric::TargetDistribution(TD::M) => (1nat, 'M', ' ', ' '),
                CVSSv2Metric::TargetDistribution(TD::H) => (1nat, 'H', ' ', ' '),
                CVSSv2Metric::TargetDistribution(TD::ND) => (2nat, 'N', 'D', ' '),
                CVSSv2Metric::ConfidentialityRequirement(CR::N) => (1nat, 'N', ' ', ' '),
                CVSSv2Metric::ConfidentialityRequirement(CR::L) => (1nat, 'L', ' ', ' '),
                CVSSv2Metric::ConfidentialityRequirement(CR::M) => (1nat, 'M', ' ', ' '),
                CVSSv2Metric::ConfidentialityRequirement(CR::H) => (1nat, 'H', ' ', ' '),
                CVSSv2Metric::ConfidentialityRequirement(CR::ND) => (2nat, 'N', 'D', ' '),
                CVSSv2Metric::IntegrityRequirement(IR::N) => (1nat, 'N', ' ', ' '),
                CVSSv2Metric::IntegrityRequirement(IR::L) => (1nat, 'L', ' ', ' '),
                CVSSv2Metric::IntegrityRequirement(IR::M) => (1nat, 'M', ' ', ' '),
                CVSSv2Metric::IntegrityRequirement(IR::H) => (1nat, 'H', ' ', ' '),
                CVSSv2Metric::IntegrityRequirement(IR::ND) => (2nat, 'N', 'D', ' '),
                CVSSv2Metric::AvailabilityRequirement(AR::N) => (1nat, 'N', ' ', ' '),
                CVSSv2Metric::AvailabilityRequirement(AR::L) => (1nat, 'L', ' ', ' '),
                CVSSv2Metric::AvailabilityRequirement(AR::M) => (1nat, 'M', ' ', ' '),
                CVSSv2Metric::AvailabilityRequirement(AR::H) => (1nat, 'H', ' ', ' '),
                CVSSv2Metric::AvailabilityRequirement(AR::ND) => (2nat, 'N', 'D', ' '),
            }),
    {
        reveal_strlit("N");
        reveal_strlit("A");
        reveal_strlit("L");
        reveal_strlit("H");
        reveal_strlit("M");
        reveal_strlit("S");
        reveal_strlit("P");
        reveal_strlit("C");
        reveal_strlit("U");
        reveal_strlit("POC");
        reveal_strlit("F");
        reveal_strlit("ND");
        reveal_strlit("OF");
        reveal_strlit("TF");
        reveal_strlit("W");
        reveal_strlit("UC");
        reveal_strlit("UR");
        reveal_strlit("LM");
        reveal_strlit("MH");
    }
}

impl Metric for CVSSv2Metric {
    open spec fn axis(self) -> nat {
        match self {
            CVSSv2Metric::AccessVector(_) => 0,
            CVSSv2Metric::AccessComplexity(_) => 1,
            CVSSv2Metric::Authentication(_) => 2,
            CVSSv2Metric::Confidentiality(_) => 3,
            CVSSv2Metric::Integrity(_) => 4,
            CVSSv2Metric::Availability(_) => 5,
            CVSSv2Metric::Exploitability(_) => 6,
            CVSSv2Metric::RemediationLevel(_) => 7,
            CVSSv2Metric::ReportConfidence(_) => 8,
            CVSSv2Metric::CollateralDamagePotential(_) => 9,
            CVSSv2Metric::TargetDistribution(_) => 10,
            CVSSv2Metric::ConfidentialityRequirement(_) => 11,
            CVSSv2Metric::IntegrityRequirement(_) => 12,
            CVSSv2Metric::AvailabilityRequirement(_) => 13,
        }
    }

    open spec fn axes() -> nat {
        14
    }

    open spec fn mandatory() -> nat {
        6
    }

    open spec fn in_grammar(self) -> bool {
        match self {
            CVSSv2Metric::RemediationLevel(x) => x.in_grammar(),
            CVSSv2Metric::TargetDistribution(x) => x.in_grammar(),
            CVSSv2Metric::ConfidentialityRequirement(x) => x.in_grammar(),
            CVSSv2Metric::IntegrityRequirement(x) => x.in_grammar(),
            CVSSv2Metric::AvailabilityRequirement(x) => x.in_grammar(),
            _ => true,
        }
    }

    open spec fn axis_code(self) -> Seq<char> {
        match self {
            CVSSv2Metric::AccessVector(_) => "AV"@,
            CVSSv2Metric::AccessComplexity(_) => "AC"@,
            CVSSv2Metric::Authentication(_) => "Au"@,
            CVSSv2Metric::Confidentiality(_) => "C"@,
            CVSSv2Metric::Integrity(_) => "I"@,
            CVSSv2Metric::Availability(_) => "A"@,
            CVSSv2Metric::Exploitability(_) => "E"@,
            CVSSv2Metric::RemediationLevel(_) => "RL"@,
            CVSSv2Metric::ReportConfidence(_) => "RC"@,
            CVSSv2Metric::CollateralDamagePotential(_) => "CDP"@,
            CVSSv2Metric::TargetDistribution(_) => "TD"@,
            CVSSv2Metric::ConfidentialityRequirement(_) => "CR"@,
            CVSSv2Metric::IntegrityRequirement(_) => "IR"@,
            CVSSv2Metric::AvailabilityRequirement(_) => "AR"@,
        }
    }

    open spec fn level_code(self) -> Seq<char> {
        match self {
            CVSSv2Metric::AccessVector(x) => x.as_str()@,
            CVSSv2Metric::AccessComplexity(x) => x.as_str()@,
            CVSSv2Metric::Authentication(x) => x.as_str()@,
            CVSSv2Metric::Confidentiality(x) => x.as_str()@,
            CVSSv2Metric::Integrity(x) => x.as_str()@,
            CVSSv2Metric::Availability(x) => x.as_str()@,
            CVSSv2Metric::Exploitability(x) => x.as_str()@,
            CVSSv2Metric::RemediationLevel(x) => x.as_str()@,
            CVSSv2Metric::ReportConfidence(x) => x.as_str()@,
            CVSSv2Metric::CollateralDamagePotential(x) => x.as_str()@,
            CVSSv2Metric::TargetDistribution(x) => x.as_str()@,
            CVSSv2Metric::ConfidentialityRequirement(x) => x.as_str()@,
            CVSSv2Metric::IntegrityRequirement(x) => x.as_str()@,
            CVSSv2Metric::AvailabilityRequirement(x) => x.as_str()@,
        }
    }

    proof fn lemma_axes() {
    }

    proof fn lemma_axis_in_range(self) {
    }

    proof fn lemma_codes_plain(self) {
        match self {
            CVSSv2Metric::AccessVector(x) => {
                reveal_strlit("AV");
                x.lemma_code_plain();
            },
            CVSSv2Metric::AccessComplexity(x) => {
                reveal_strlit("AC");
                x.lemma_code_plain();
            },
            CVSSv2Metric::Authentication(x) => {
                reveal_strlit("Au");
                x.lemma_code_plain();
            },
            CVSSv2Metric::Confidentiality(x) => {
                reveal_strlit("C");
                x.lemma_code_plain();
            },
            CVSSv2Metric::Integrity(x) => {
                reveal_strlit("I");
                x.lemma_code_plain();
            },
            CVSSv2Metric::Availability(x) => {
                reveal_strlit("A");
                x.lemma_code_plain();
            },
            CVSSv2Metric::Exploitability(x) => {
                reveal_strlit("E");
                x.lemma_code_plain();
            },
            CVSSv2Metric::RemediationLevel(x) => {
                reveal_strlit("RL");
                x.lemma_code_plain();
            },
            CVSSv2Metric::ReportConfidence(x) => {
                reveal_strlit("RC");
                x.lemma_code_plain();
            },
            CVSSv2Metric::CollateralDamagePotential(x) => {
                reveal_strlit("CDP");
                x.lemma_code_plain();
            },
            CVSSv2Metric::TargetDistribution(x) => {
                reveal_strlit("TD");
                x.lemma_code_plain();
            },
            CVSSv2Metric::ConfidentialityRequirement(x) => {
                reveal_strlit("CR");
                x.lemma_code_plain();
            },
            CVSSv2Metric::IntegrityRequirement(x) => {
                reveal_strlit("IR");
                x.lemma_code_plain();
            },
            CVSSv2Metric::AvailabilityRequirement(x) => {
                reveal_strlit("AR");
                x.lemma_code_plain();
            },
        }
    }

    proof fn lemma_codes_injective(self, other: Self) {
        self.lemma_axis_code_shape();
        other.lemma_axis_code_shape();
        assert(self.axis() == other.axis());
        self.lemma_level_code_shape();
        other.lemma_level_code_shape();
    }

    fn axis_index(&self) -> (i: usize) {
        match self {
            CVSSv2Metric::AccessVector(_) => 0,
            CVSSv2Metric::AccessComplexity(_) => 1,
            CVSSv2Metric::Authentication(_) => 2,
            CVSSv2Metric::Confidentiality(_) => 3,
            CVSSv2Metric::Integrity(_) => 4,
            CVSSv2Metric::Availability(_) => 5,
            CVSSv2Metric::Exploitability(_) => 6,
            CVSSv2Metric::RemediationLevel(_) => 7,
            CVSSv2Metric::ReportConfidence(_) => 8,
            CVSSv2Metric::CollateralDamagePotential(_) => 9,
            CVSSv2Metric::TargetDistribution(_) => 10,
            CVSSv2Metric::ConfidentialityRequirement(_) => 11,
            CVSSv2Metric::IntegrityRequirement(_) => 12,
            CVSSv2Metric::AvailabilityRequirement(_) => 13,
        }
    }

    fn axis_count() -> (n: usize) {
        14
    }

    fn mandatory_count() -> (n: usize) {
        6
    }

    fn axis_str(&self) -> (s: &'static str) {
        match self {
            CVSSv2Metric::AccessVector(_) => "AV",
            CVSSv2Metric::AccessComplexity(_) => "AC",
            CVSSv2Metric::Authentication(_) => "Au",
            CVSSv2Metric::Confidentiality(_) => "C",
            CVSSv2Metric::Integrity(_) => "I",
            CVSSv2Metric::Availability(_) => "A",
            CVSSv2Metric::Exploitability(_) => "E",
            CVSSv2Metric::RemediationLevel(_) => "RL",
            CVSSv2Metric::ReportConfidence(_) => "RC",
            CVSSv2Metric::CollateralDamagePotential(_) => "CDP",
            CVSSv2Metric::TargetDistribution(_) => "TD",
            CVSSv2Metric::ConfidentialityRequirement(_) => "CR",
            CVSSv2Metric::IntegrityRequirement(_) => "IR",
            CVSSv2Metric::AvailabilityRequirement(_) => "AR",
        }
    }

    fn level_str(&self) -> (s: &'static str) {
        match self {
            CVSSv2Metric::AccessVector(x) => x.as_str(),
            CVSSv2Metric::AccessComplexity(x) => x.as_str(),
            CVSSv2Metric::Authentication(x) => x.as_str(),
            CVSSv2Metric::Confidentiality(x) => x.as_str(),
            CVSSv2Metric::Integrity(x) => x.as_str(),
            CVSSv2Metric::Availability(x) => x.as_str(),
            CVSSv2Metric::Exploitability(x) => x.as_str(),
            CVSSv2Metric::RemediationLevel(x) => x.as_str(),
            CVSSv2Metric::ReportConfidence(x) => x.as_str(),
            CVSSv2Metric::CollateralDamagePotential(x) => x.as_str(),
            CVSSv2Metric::TargetDistribution(x) => x.as_str(),
            CVSSv2Metric::ConfidentialityRequirement(x) => x.as_str(),
            CVSSv2Metric::IntegrityRequirement(x) => x.as_str(),
            CVSSv2Metric::AvailabilityRequirement(x) => x.as_str(),
        }
    }

    fn axis_of_code(code: &str) -> (r: Option<usize>) {
        let r = 
        if same(code, "AV") {
            Some(0)
        } else if same(code, "AC") {
            Some(1)
        } else if same(code, "Au") {
            Some(2)
        } else if same(code, "C") {
            Some(3)
        } else if same(code, "I") {
            Some(4)
        } else if same(code, "A") {
            Some(5)
        } else if same(code, "E") {
            Some(6)
        } else if same(code, "RL") {
            Some(7)
        } else if same(code, "RC") {
            Some(8)
        } else if same(code, "CDP") {
            Some(9)
        } else if same(code, "TD") {
            Some(10)
        } else if same(code, "CR") {
            Some(11)
        } else if same(code, "IR") {
            Some(12)
        } else if same(code, "AR") {
            Some(13)
        } else {
            None
        };
        proof {
            assert forall|m: Self| #[trigger] m.axis_code() == code@ implies Some(
                m.axis() as usize,
            ) == r by {
                m.lemma_axis_code_shape();
                reveal_strlit("AV");
                reveal_strlit("AC");
                reveal_strlit("Au");
                reveal_strlit("C");
                reveal_strlit("I");
                reveal_strlit("A");
                reveal_strlit("E");
                reveal_strlit("RL");
                reveal_strlit("RC");
                reveal_strlit("CDP");
                reveal_strlit("TD");
                reveal_strlit("CR");
                reveal_strlit("IR");
                reveal_strlit("AR");
            }
        }
        r
    }

    fn with_level(axis: usize, code: &str) -> (r: Option<Self>) {
        match axis {
            0 => match AV::from_code(code) {
                Some(x) => Some(CVSSv2Metric::AccessVector(x)),
                None => None,
            },
            1 => match AC::from_code(code) {
                Some(x) => Some(CVSSv2Metric::AccessComplexity(x)),
                None => None,
            },
            2 => match AU::from_code(code) {
                Some(x) => Some(CVSSv2Metric::Authentication(x)),
                None => None,
            },
            3 => match C::from_code(code) {
                Some(x) => Some(CVSSv2Metric::Confidentiality(x)),
                None => None,
            },
            4 => match I::from_code(code) {
                Some(x) => Some(CVSSv2Metric::Integrity(x)),
                None => None,
            },
            5 => match A::from_code(code) {
                Some(x) => Some(CVSSv2Metric::Availability(x)),
                None => None,
            },
            6 => match E::from_code(code) {
                Some(x) => Some(CVSSv2Metric::Exploitability(x)),
                None => None,
            },
            7 => match RL::from_code(code) {
                Some(x) => Some(CVSSv2Metric::RemediationLevel(x)),
                None => None,
            },
            8 => match RC::from_code(code) {
                Some(x) => Some(CVSSv2Metric::ReportConfidence(x)),
                None => None,
            },
            9 => match CDP::from_code(code) {
                Some(x) => Some(CVSSv2Metric::CollateralDamagePotential(x)),
                None => None,
            },
            10 => match TD::from_code(code) {
                Some(x) => Some(CVSSv2Metric::TargetDistribution(x)),
                None => None,
            },
            11 => match CR::from_code(code) {
                Some(x) => Some(CVSSv2Metric::ConfidentialityRequirement(x)),
                None => None,
            },
            12 => match IR::from_code(code) {
                Some(x) => Some(CVSSv2Metric::IntegrityRequirement(x)),
                None => None,
            },
            _ => match AR::from_code(code) {
                Some(x) => Some(CVSSv2Metric::AvailabilityRequirement(x)),
                None => None,
            },
        }
    }
}

impl PartialEq for CVSSv2Metric {
    fn eq(&self, other: &CVSSv2Metric) -> (r: bool) {
        self.axis_index() == other.axis_index()
    }
}

impl Eq for CVSSv2Metric {
}

impl PartialEqSpecImpl for CVSSv2Metric {
    open spec fn obeys_eq_spec() -> bool {
        true
    }

    open spec fn eq_spec(&self, other: &CVSSv2Metric) -> bool {
        self.axis() == other.axis()
    }
}

impl PartialOrd for CVSSv2Metric {
    fn partial_cmp(&self, other: &CVSSv2Metric) -> (r: Option<Ordering>) {
        let mine = self.axis_index();
        let theirs = other.axis_index();
        if mine < theirs {
            Some(Ordering::Less)
        } else if mine == theirs {
            Some(Ordering::Equal)
        } else {
            Some(Ordering::Greater)
        }
    }
}

impl PartialOrdSpecImpl for CVSSv2Metric {
    open spec fn obeys_partial_cmp_spec() -> bool {
        true
    }

    open spec fn partial_cmp_spec(&self, other: &CVSSv2Metric) -> Option<Ordering> {
        if self.axis() < other.axis() {
            Some(Ordering::Less)
        } else if self.axis() == other.axis() {
            Some(Ordering::Equal)
        } else {
            Some(Ordering::Greater)
        }
    }
}

} // verus!
