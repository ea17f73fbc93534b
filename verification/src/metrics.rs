//! The metrics of CVSS v3.0 and v3.1: one type of levels per axis, with the
//! weight of each level, and the metric type that a vector is made of.

use crate::grammar::{is_plain, same, shape, spell, token, Metric};
use vstd::prelude::*;
use std::cmp::Ordering;
use vstd::std_specs::cmp::{PartialEqSpecImpl, PartialOrdSpecImpl};
use vstd::string::*;

verus! {

/// Attack Vector.
#[derive(Clone, Copy, Debug, PartialEq, Eq, PartialOrd, Ord, Structural)]
pub enum AV {
    /// Network.
    N,
    /// Adjacent.
    A,
    /// Local.
    L,
    /// Physical.
    P,
}

impl AV {
    /// The weight of the level, in thousandths.
    #[verifier::allow_in_spec]
    pub fn value(&self) -> u32
        returns
            (match self {
                AV::N => 850u32,
                AV::A => 620u32,
                AV::L => 550u32,
                AV::P => 200u32,
            }),
    {
        match self {
            AV::N => 850,
            AV::A => 620,
            AV::L => 550,
            AV::P => 200,
        }
    }

    /// The code of the level, as a vector string writes it.
    #[verifier::allow_in_spec]
    pub fn as_str(&self) -> &'static str
        returns
            (match self {
                AV::N => "N",
                AV::A => "A",
                AV::L => "L",
                AV::P => "P",
            }),
    {
        match self {
            AV::N => "N",
            AV::A => "A",
            AV::L => "L",
            AV::P => "P",
        }
    }

    /// The level that the code names, if a vector string can name one so.
    pub fn from_code(code: &str) -> (r: Option<AV>)
        ensures
            match r {
                Some(x) => x.as_str()@ == code@,
                None => forall|x: AV| #[trigger] x.as_str()@ != code@,
            },
    {
        if same(code, "N") {
            Some(AV::N)
        } else if same(code, "A") {
            Some(AV::A)
        } else if same(code, "L") {
            Some(AV::L)
        } else if same(code, "P") {
            Some(AV::P)
        } else {
            None
        }
    }

    proof fn lemma_code_plain(self)
        ensures
            is_plain(self.as_str()@),
    {
        reveal_strlit("N");
        reveal_strlit("A");
        reveal_strlit("L");
        reveal_strlit("P");
    }
}

/// Attack Complexity.
#[derive(Clone, Copy, Debug, PartialEq, Eq, PartialOrd, Ord, Structural)]
pub enum AC {
    /// Low.
    L,
    /// High.
    H,
}

impl AC {
    /// The weight of the level, in thousandths.
    #[verifier::allow_in_spec]
    pub fn value(&self) -> u32
        returns
            (match self {
                AC::L => 770u32,
                AC::H => 440u32,
            }),
    {
        match self {
            AC::L => 770,
            AC::H => 440,
        }
    }

    /// The code of the level, as a vector string writes it.
    #[verifier::allow_in_spec]
    pub fn as_str(&self) -> &'static str
        returns
            (match self {
                AC::L => "L",
                AC::H => "H",
            }),
    {
        match self {
            AC::L => "L",
            AC::H => "H",
        }
    }

    /// The level that the code names, if a vector string can name one so.
    pub fn from_code(code: &str) -> (r: Option<AC>)
        ensures
            match r {
                Some(x) => x.as_str()@ == code@,
                None => forall|x: AC| #[trigger] x.as_str()@ != code@,
            },
    {
        if same(code, "L") {
            Some(AC::L)
        } else if same(code, "H") {
            Some(AC::H)
        } else {
            None
        }
    }

    proof fn lemma_code_plain(self)
        ensures
            is_plain(self.as_str()@),
    {
        reveal_strlit("L");
        reveal_strlit("H");
    }
}

/// Privileges Required.
#[derive(Clone, Copy, Debug, PartialEq, Eq, PartialOrd, Ord, Structural)]
pub enum PR {
    /// None.
    N,
    /// Low.
    L,
    /// High.
    H,
}

impl PR {
    /// The weight of the level, in thousandths.
    #[verifier::allow_in_spec]
    pub fn value(&self) -> u32
        returns
            (match self {
                PR::N => 850u32,
                PR::L => 620u32,
                PR::H => 270u32,
            }),
    {
        match self {
            PR::N => 850,
            PR::L => 620,
            PR::H => 270,
        }
    }

    /// The code of the level, as a vector string writes it.
    #[verifier::allow_in_spec]
    pub fn as_str(&self) -> &'static str
        returns
            (match self {
                PR::N => "N",
                PR::L => "L",
                PR::H => "H",
            }),
    {
        match self {
            PR::N => "N",
            PR::L => "L",
            PR::H => "H",
        }
    }

    /// The weight of the level under the given scope, in thousandths: a
    /// changed scope raises the weights of `L` and `H`.
    #[verifier::allow_in_spec]
    pub fn scoped_value(&self, scope: &S) -> u32
        returns
            (match (scope, self) {
                (S::C, PR::L) => 680u32,
                (S::C, PR::H) => 500u32,
                _ => self.value(),
            }),
    {
        match scope {
            S::U => self.value(),
            S::C => match self {
                PR::L => 680,
                PR::H => 500,
                _ => self.value(),
            },
        }
    }

    /// The level that the code names, if a vector string can name one so.
    pub fn from_code(code: &str) -> (r: Option<PR>)
        ensures
            match r {
                Some(x) => x.as_str()@ == code@,
                None => forall|x: PR| #[trigger] x.as_str()@ != code@,
            },
    {
        if same(code, "N") {
            Some(PR::N)
        } else if same(code, "L") {
            Some(PR::L)
        } else if same(code, "H") {
            Some(PR::H)
        } else {
            None
        }
    }

    proof fn lemma_code_plain(self)
        ensures
            is_plain(self.as_str()@),
    {
        reveal_strlit("N");
        reveal_strlit("L");
        reveal_strlit("H");
    }
}

/// User Interaction.
#[derive(Clone, Copy, Debug, PartialEq, Eq, PartialOrd, Ord, Structural)]
pub enum UI {
    /// None.
    N,
    /// Required.
    R,
}

impl UI {
    /// The weight of the level, in thousandths.
    #[verifier::allow_in_spec]
    pub fn value(&self) -> u32
        returns
            (match self {
                UI::N => 850u32,
                UI::R => 620u32,
            }),
    {
        match self {
            UI::N => 850,
            UI::R => 620,
        }
    }

    /// The code of the level, as a vector string writes it.
    #[verifier::allow_in_spec]
    pub fn as_str(&self) -> &'static str
        returns
            (match self {
                UI::N => "N",
                UI::R => "R",
            }),
    {
        match self {
            UI::N => "N",
            UI::R => "R",
        }
    }

    /// The level that the code names, if a vector string can name one so.
    pub fn from_code(code: &str) -> (r: Option<UI>)
        ensures
            match r {
                Some(x) => x.as_str()@ == code@,
                None => forall|x: UI| #[trigger] x.as_str()@ != code@,
            },
    {
        if same(code, "N") {
            Some(UI::N)
        } else if same(code, "R") {
            Some(UI::R)
        } else {
            None
        }
    }

    proof fn lemma_code_plain(self)
        ensures
            is_plain(self.as_str()@),
    {
        reveal_strlit("N");
        reveal_strlit("R");
    }
}

/// Scope.
#[derive(Clone, Copy, Debug, PartialEq, Eq, PartialOrd, Ord, Structural)]
pub enum S {
    /// Unchanged.
    U,
    /// Changed.
    C,
}

impl S {
    /// The weight of the level, in thousandths.
    #[verifier::allow_in_spec]
    pub fn value(&self) -> u32
        returns
            (match self {
                S::U => 6420u32,
                S::C => 7520u32,
            }),
    {
        match self {
            S::U => 6420,
            S::C => 7520,
        }
    }

    /// The code of the level, as a vector string writes it.
    #[verifier::allow_in_spec]
    pub fn as_str(&self) -> &'static str
        returns
            (match self {
                S::U => "U",
                S::C => "C",
            }),
    {
        match self {
            S::U => "U",
            S::C => "C",
        }
    }

    /// The level that the code names, if a vector string can name one so.
    pub fn from_code(code: &str) -> (r: Option<S>)
        ensures
            match r {
                Some(x) => x.as_str()@ == code@,
                None => forall|x: S| #[trigger] x.as_str()@ != code@,
            },
    {
        if same(code, "U") {
            Some(S::U)
        } else if same(code, "C") {
            Some(S::C)
        } else {
            None
        }
    }

    proof fn lemma_code_plain(self)
        ensures
            is_plain(self.as_str()@),
    {
        reveal_strlit("U");
        reveal_strlit("C");
    }
}

/// Confidentiality.
#[derive(Clone, Copy, Debug, PartialEq, Eq, PartialOrd, Ord, Structural)]
pub enum C {
    /// High.
    H,
    /// Low.
    L,
    /// None.
    N,
}

impl C {
    /// The weight of the level, in thousandths.
    #[verifier::allow_in_spec]
    pub fn value(&self) -> u32
        returns
            (match self {
                C::H => 560u32,
                C::L => 220u32,
                C::N => 0u32,
            }),
    {
        match self {
            C::H => 560,
            C::L => 220,
            C::N => 0,
        }
    }

    /// The code of the level, as a vector string writes it.
    #[verifier::allow_in_spec]
    pub fn as_str(&self) -> &'static str
        returns
            (match self {
                C::H => "H",
                C::L => "L",
                C::N => "N",
            }),
    {
        match self {
            C::H => "H",
            C::L => "L",
            C::N => "N",
        }
    }

    /// The level that the code names, if a vector string can name one so.
    pub fn from_code(code: &str) -> (r: Option<C>)
        ensures
            match r {
                Some(x) => x.as_str()@ == code@,
                None => forall|x: C| #[trigger] x.as_str()@ != code@,
            },
    {
        if same(code, "H") {
            Some(C::H)
        } else if same(code, "L") {
            Some(C::L)
        } else if same(code, "N") {
            Some(C::N)
        } else {
            None
        }
    }

    proof fn lemma_code_plain(self)
        ensures
            is_plain(self.as_str()@),
    {
        reveal_strlit("H");
        reveal_strlit("L");
        reveal_strlit("N");
    }
}

/// Integrity.
#[derive(Clone, Copy, Debug, PartialEq, Eq, PartialOrd, Ord, Structural)]
pub enum I {
    /// High.
    H,
    /// Low.
    L,
    /// None.
    N,
}

impl I {
    /// The weight of the level, in thousandths.
    #[verifier::allow_in_spec]
    pub fn value(&self) -> u32
        returns
            (match self {
                I::H => 560u32,
                I::L => 220u32,
                I::N => 0u32,
            }),
    {
        match self {
            I::H => 560,
            I::L => 220,
            I::N => 0,
        }
    }

    /// The code of the level, as a vector string writes it.
    #[verifier::allow_in_spec]
    pub fn as_str(&self) -> &'static str
        returns
            (match self {
                I::H => "H",
                I::L => "L",
                I::N => "N",
            }),
    {
        match self {
            I::H => "H",
            I::L => "L",
            I::N => "N",
        }
    }

    /// The level that the code names, if a vector string can name one so.
    pub fn from_code(code: &str) -> (r: Option<I>)
        ensures
            match r {
                Some(x) => x.as_str()@ == code@,
                None => forall|x: I| #[trigger] x.as_str()@ != code@,
            },
    {
        if same(code, "H") {
            Some(I::H)
        } else if same(code, "L") {
            Some(I::L)
        } else if same(code, "N") {
            Some(I::N)
        } else {
            None
        }
    }

    proof fn lemma_code_plain(self)
        ensures
            is_plain(self.as_str()@),
    {
        reveal_strlit("H");
        reveal_strlit("L");
        reveal_strlit("N");
    }
}

/// Availability.
#[derive(Clone, Copy, Debug, PartialEq, Eq, PartialOrd, Ord, Structural)]
pub enum A {
    /// High.
    H,
    /// Low.
    L,
    /// None.
    N,
}

impl A {
    /// The weight of the level, in thousandths.
    #[verifier::allow_in_spec]
    pub fn value(&self) -> u32
        returns
            (match self {
                A::H => 560u32,
                A::L => 220u32,
                A::N => 0u32,
            }),
    {
        match self {
            A::H => 560,
            A::L => 220,
            A::N => 0,
        }
    }

    /// The code of the level, as a vector string writes it.
    #[verifier::allow_in_spec]
    pub fn as_str(&self) -> &'static str
        returns
            (match self {
                A::H => "H",
                A::L => "L",
                A::N => "N",
            }),
    {
        match self {
            A::H => "H",
            A::L => "L",
            A::N => "N",
        }
    }

    /// The level that the code names, if a vector string can name one so.
    pub fn from_code(code: &str) -> (r: Option<A>)
        ensures
            match r {
                Some(x) => x.as_str()@ == code@,
                None => forall|x: A| #[trigger] x.as_str()@ != code@,
            },
    {
        if same(code, "H") {
            Some(A::H)
        } else if same(code, "L") {
            Some(A::L)
        } else if same(code, "N") {
            Some(A::N)
        } else {
            None
        }
    }

    proof fn lemma_code_plain(self)
        ensures
            is_plain(self.as_str()@),
    {
        reveal_strlit("H");
        reveal_strlit("L");
        reveal_strlit("N");
    }
}

/// Exploit Code Maturity.
#[derive(Clone, Copy, Debug, PartialEq, Eq, PartialOrd, Ord, Structural)]
pub enum E {
    /// Not Defined.
    X,
    /// High.
    H,
    /// Functional.
    F,
    /// Proof-of-Concept.
    P,
    /// Unproven.
    U,
}

impl E {
    /// The weight of the level, in thousandths.
    #[verifier::allow_in_spec]
    pub fn value(&self) -> u32
        returns
            (match self {
                E::X => 1000u32,
                E::H => 1000u32,
                E::F => 970u32,
                E::P => 940u32,
                E::U => 910u32,
            }),
    {
        match self {
            E::X => 1000,
            E::H => 1000,
            E::F => 970,
            E::P => 940,
            E::U => 910,
        }
    }

    /// The code of the level, as a vector string writes it.
    #[verifier::allow_in_spec]
    pub fn as_str(&self) -> &'static str
        returns
            (match self {
                E::X => "X",
                E::H => "H",
                E::F => "F",
                E::P => "P",
                E::U => "U",
            }),
    {
        match self {
            E::X => "X",
            E::H => "H",
            E::F => "F",
            E::P => "P",
            E::U => "U",
        }
    }

    /// The level that the code names, if a vector string can name one so.
    pub fn from_code(code: &str) -> (r: Option<E>)
        ensures
            match r {
                Some(x) => x.as_str()@ == code@,
                None => forall|x: E| #[trigger] x.as_str()@ != code@,
            },
    {
        if same(code, "X") {
            Some(E::X)
        } else if same(code, "H") {
            Some(E::H)
        } else if same(code, "F") {
            Some(E::F)
        } else if same(code, "P") {
            Some(E::P)
        } else if same(code, "U") {
            Some(E::U)
        } else {
            None
        }
    }

    proof fn lemma_code_plain(self)
        ensures
            is_plain(self.as_str()@),
    {
        reveal_strlit("X");
        reveal_strlit("H");
        reveal_strlit("F");
        reveal_strlit("P");
        reveal_strlit("U");
    }
}

/// Remediation Level.
#[derive(Clone, Copy, Debug, PartialEq, Eq, PartialOrd, Ord, Structural)]
pub enum RL {
    /// Not Defined.
    X,
    /// Unavailable.
    U,
    /// Workaround.
    W,
    /// Temporary Fix.
    T,
    /// Official Fix.
    O,
}

impl RL {
    /// The weight of the level, in thousandths.
    #[verifier::allow_in_spec]
    pub fn value(&self) -> u32
        returns
            (match self {
                RL::X => 1000u32,
                RL::U => 1000u32,
                RL::W => 970u32,
                RL::T => 960u32,
                RL::O => 950u32,
            }),
    {
        match self {
            RL::X => 1000,
            RL::U => 1000,
            RL::W => 970,
            RL::T => 960,
            RL::O => 950,
        }
    }

    /// The code of the level, as a vector string writes it.
    #[verifier::allow_in_spec]
    pub fn as_str(&self) -> &'static str
        returns
            (match self {
                RL::X => "X",
                RL::U => "U",
                RL::W => "W",
                RL::T => "T",
                RL::O => "O",
            }),
    {
        match self {
            RL::X => "X",
            RL::U => "U",
            RL::W => "W",
            RL::T => "T",
            RL::O => "O",
        }
    }

    /// The level that the code names, if a vector string can name one so.
    pub fn from_code(code: &str) -> (r: Option<RL>)
        ensures
            match r {
                Some(x) => x.as_str()@ == code@,
                None => forall|x: RL| #[trigger] x.as_str()@ != code@,
            },
    {
        if same(code, "X") {
            Some(RL::X)
        } else if same(code, "U") {
            Some(RL::U)
        } else if same(code, "W") {
            Some(RL::W)
        } else if same(code, "T") {
            Some(RL::T)
        } else if same(code, "O") {
            Some(RL::O)
        } else {
            None
        }
    }

    proof fn lemma_code_plain(self)
        ensures
            is_plain(self.as_str()@),
    {
        reveal_strlit("X");
        reveal_strlit("U");
        reveal_strlit("W");
        reveal_strlit("T");
        reveal_strlit("O");
    }
}

/// Report Confidence.
#[derive(Clone, Copy, Debug, PartialEq, Eq, PartialOrd, Ord, Structural)]
pub enum RC {
    /// Not Defined.
    X,
    /// Confirmed.
    C,
    /// Reasonable.
    R,
    /// Unknown.
    U,
}

impl RC {
    /// The weight of the level, in thousandths.
    #[verifier::allow_in_spec]
    pub fn value(&self) -> u32
        returns
            (match self {
                RC::X => 1000u32,
                RC::C => 1000u32,
                RC::R => 960u32,
                RC::U => 920u32,
            }),
    {
        match self {
            RC::X => 1000,
            RC::C => 1000,
            RC::R => 960,
            RC::U => 920,
        }
    }

    /// The code of the level, as a vector string writes it.
    #[verifier::allow_in_spec]
    pub fn as_str(&self) -> &'static str
        returns
            (match self {
                RC::X => "X",
                RC::C => "C",
                RC::R => "R",
                RC::U => "U",
            }),
    {
        match self {
            RC::X => "X",
            RC::C => "C",
            RC::R => "R",
            RC::U => "U",
        }
    }

    /// The level that the code names, if a vector string can name one so.
    pub fn from_code(code: &str) -> (r: Option<RC>)
        ensures
            match r {
                Some(x) => x.as_str()@ == code@,
                None => forall|x: RC| #[trigger] x.as_str()@ != code@,
            },
    {
        if same(code, "X") {
            Some(RC::X)
        } else if same(code, "C") {
            Some(RC::C)
        } else if same(code, "R") {
            Some(RC::R)
        } else if same(code, "U") {
            Some(RC::U)
        } else {
            None
        }
    }

    proof fn lemma_code_plain(self)
        ensures
            is_plain(self.as_str()@),
    {
        reveal_strlit("X");
        reveal_strlit("C");
        reveal_strlit("R");
        reveal_strlit("U");
    }
}

/// Confidentiality Requirement.
#[derive(Clone, Copy, Debug, PartialEq, Eq, PartialOrd, Ord, Structural)]
pub enum CR {
    /// Not Defined.
    X,
    /// High.
    H,
    /// Medium.
    M,
    /// Low.
    L,
}

impl CR {
    /// The weight of the level, in thousandths.
    #[verifier::allow_in_spec]
    pub fn value(&self) -> u32
        returns
            (match self {
                CR::X => 1000u32,
                CR::H => 1500u32,
                CR::M => 1000u32,
                CR::L => 500u32,
            }),
    {
        match self {
            CR::X => 1000,
            CR::H => 1500,
            CR::M => 1000,
            CR::L => 500,
        }
    }

    /// The code of the level, as a vector string writes it.
    #[verifier::allow_in_spec]
    pub fn as_str(&self) -> &'static str
        returns
            (match self {
                CR::X => "X",
                CR::H => "H",
                CR::M => "M",
                CR::L => "L",
            }),
    {
        match self {
            CR::X => "X",
            CR::H => "H",
            CR::M => "M",
            CR::L => "L",
        }
    }

    /// The level that the code names, if a vector string can name one so.
    pub fn from_code(code: &str) -> (r: Option<CR>)
        ensures
            match r {
                Some(x) => x.as_str()@ == code@,
                None => forall|x: CR| #[trigger] x.as_str()@ != code@,
            },
    {
        if same(code, "X") {
            Some(CR::X)
        } else if same(code, "H") {
            Some(CR::H)
        } else if same(code, "M") {
            Some(CR::M)
        } else if same(code, "L") {
            Some(CR::L)
        } else {
            None
        }
    }

    proof fn lemma_code_plain(self)
        ensures
            is_plain(self.as_str()@),
    {
        reveal_strlit("X");
        reveal_strlit("H");
        reveal_strlit("M");
        reveal_strlit("L");
    }
}

/// Integrity Requirement.
#[derive(Clone, Copy, Debug, PartialEq, Eq, PartialOrd, Ord, Structural)]
pub enum IR {
    /// Not Defined.
    X,
    /// High.
    H,
    /// Medium.
    M,
    /// Low.
    L,
}

impl IR {
    /// The weight of the level, in thousandths.
    #[verifier::allow_in_spec]
    pub fn value(&self) -> u32
        returns
            (match self {
                IR::X => 1000u32,
                IR::H => 1500u32,
                IR::M => 1000u32,
                IR::L => 500u32,
            }),
    {
        match self {
            IR::X => 1000,
            IR::H => 1500,
            IR::M => 1000,
            IR::L => 500,
        }
    }

    /// The code of the level, as a vector string writes it.
    #[verifier::allow_in_spec]
    pub fn as_str(&self) -> &'static str
        returns
            (match self {
                IR::X => "X",
                IR::H => "H",
                IR::M => "M",
                IR::L => "L",
            }),
    {
        match self {
            IR::X => "X",
            IR::H => "H",
            IR::M => "M",
            IR::L => "L",
        }
    }

    /// The level that the code names, if a vector string can name one so.
    pub fn from_code(code: &str) -> (r: Option<IR>)
        ensures
            match r {
                Some(x) => x.as_str()@ == code@,
                None => forall|x: IR| #[trigger] x.as_str()@ != code@,
            },
    {
        if same(code, "X") {
            Some(IR::X)
        } else if same(code, "H") {
            Some(IR::H)
        } else if same(code, "M") {
            Some(IR::M)
        } else if same(code, "L") {
            Some(IR::L)
        } else {
            None
        }
    }

    proof fn lemma_code_plain(self)
        ensures
            is_plain(self.as_str()@),
    {
        reveal_strlit("X");
        reveal_strlit("H");
        reveal_strlit("M");
        reveal_strlit("L");
    }
}

/// Availability Requirement.
#[derive(Clone, Copy, Debug, PartialEq, Eq, PartialOrd, Ord, Structural)]
pub enum AR {
    /// Not Defined.
    X,
    /// High.
    H,
    /// Medium.
    M,
    /// Low.
    L,
}

impl AR {
    /// The weight of the level, in thousandths.
    #[verifier::allow_in_spec]
    pub fn value(&self) -> u32
        returns
            (match self {
                AR::X => 1000u32,
                AR::H => 1500u32,
                AR::M => 1000u32,
                AR::L => 500u32,
            }),
    {
        match self {
            AR::X => 1000,
            AR::H => 1500,
            AR::M => 1000,
            AR::L => 500,
        }
    }

    /// The code of the level, as a vector string writes it.
    #[verifier::allow_in_spec]
    pub fn as_str(&self) -> &'static str
        returns
            (match self {
                AR::X => "X",
                AR::H => "H",
                AR::M => "M",
                AR::L => "L",
            }),
    {
        match self {
            AR::X => "X",
            AR::H => "H",
            AR::M => "M",
            AR::L => "L",
        }
    }

    /// The level that the code names, if a vector string can name one so.
    pub fn from_code(code: &str) -> (r: Option<AR>)
        ensures
            match r {
                Some(x) => x.as_str()@ == code@,
                None => forall|x: AR| #[trigger] x.as_str()@ != code@,
            },
    {
        if same(code, "X") {
            Some(AR::X)
        } else if same(code, "H") {
            Some(AR::H)
        } else if same(code, "M") {
            Some(AR::M)
        } else if same(code, "L") {
            Some(AR::L)
        } else {
            None
        }
    }

    proof fn lemma_code_plain(self)
        ensures
            is_plain(self.as_str()@),
    {
        reveal_strlit("X");
        reveal_strlit("H");
        reveal_strlit("M");
        reveal_strlit("L");
    }
}

/// Modified Attack Vector.
#[derive(Clone, Copy, Debug, PartialEq, Eq, PartialOrd, Ord, Structural)]
pub enum MAV {
    /// Network.
    N,
    /// Adjacent.
    A,
    /// Local.
    L,
    /// Physical.
    P,
}

impl MAV {
    /// The weight of the level, in thousandths.
    #[verifier::allow_in_spec]
    pub fn value(&self) -> u32
        returns
            (match self {
                MAV::N => 850u32,
                MAV::A => 620u32,
                MAV::L => 550u32,
                MAV::P => 200u32,
            }),
    {
        match self {
            MAV::N => 850,
            MAV::A => 620,
            MAV::L => 550,
            MAV::P => 200,
        }
    }

    /// The code of the level, as a vector string writes it.
    #[verifier::allow_in_spec]
    pub fn as_str(&self) -> &'static str
        returns
            (match self {
                MAV::N => "N",
                MAV::A => "A",
                MAV::L => "L",
                MAV::P => "P",
            }),
    {
        match self {
            MAV::N => "N",
            MAV::A => "A",
            MAV::L => "L",
            MAV::P => "P",
        }
    }

    /// The level that the code names, if a vector string can name one so.
    pub fn from_code(code: &str) -> (r: Option<MAV>)
        ensures
            match r {
                Some(x) => x.as_str()@ == code@,
                None => forall|x: MAV| #[trigger] x.as_str()@ != code@,
            },
    {
        if same(code, "N") {
            Some(MAV::N)
        } else if same(code, "A") {
            Some(MAV::A)
        } else if same(code, "L") {
            Some(MAV::L)
        } else if same(code, "P") {
            Some(MAV::P)
        } else {
            None
        }
    }

    proof fn lemma_code_plain(self)
        ensures
            is_plain(self.as_str()@),
    {
        reveal_strlit("N");
        reveal_strlit("A");
        reveal_strlit("L");
        reveal_strlit("P");
    }
}

/// Modified Attack Complexity.
#[derive(Clone, Copy, Debug, PartialEq, Eq, PartialOrd, Ord, Structural)]
pub enum MAC {
    /// Not Defined.
    X,
    /// Low.
    L,
    /// High.
    H,
}

impl MAC {
    /// The weight of the level, in thousandths.
    #[verifier::allow_in_spec]
    pub fn value(&self) -> u32
        returns
            (match self {
                MAC::X => 1000u32,
                MAC::L => 770u32,
                MAC::H => 440u32,
            }),
    {
        match self {
            MAC::X => 1000,
            MAC::L => 770,
            MAC::H => 440,
        }
    }

    /// The code of the level, as a vector string writes it.
    #[verifier::allow_in_spec]
    pub fn as_str(&self) -> &'static str
        returns
            (match self {
                MAC::X => "X",
                MAC::L => "L",
                MAC::H => "H",
            }),
    {
        match self {
            MAC::X => "X",
            MAC::L => "L",
            MAC::H => "H",
        }
    }

    /// The level that the code names, if a vector string can name one so.
    pub fn from_code(code: &str) -> (r: Option<MAC>)
        ensures
            match r {
                Some(x) => x.as_str()@ == code@,
                None => forall|x: MAC| #[trigger] x.as_str()@ != code@,
            },
    {
        if same(code, "X") {
            Some(MAC::X)
        } else if same(code, "L") {
            Some(MAC::L)
        } else if same(code, "H") {
            Some(MAC::H)
        } else {
            None
        }
    }

    proof fn lemma_code_plain(self)
        ensures
            is_plain(self.as_str()@),
    {
        reveal_strlit("X");
        reveal_strlit("L");
        reveal_strlit("H");
    }
}

/// Modified Privileges Required.
#[derive(Clone, Copy, Debug, PartialEq, Eq, PartialOrd, Ord, Structural)]
pub enum MPR {
    /// Not Defined.
    X,
    /// None.
    N,
    /// Low.
    L,
    /// High.
    H,
}

impl MPR {
    /// The weight of the level, in thousandths.
    #[verifier::allow_in_spec]
    pub fn value(&self) -> u32
        returns
            (match self {
                MPR::X => 1000u32,
                MPR::N => 850u32,
                MPR::L => 620u32,
                MPR::H => 270u32,
            }),
    {
        match self {
            MPR::X => 1000,
            MPR::N => 850,
            MPR::L => 620,
            MPR::H => 270,
        }
    }

    /// The code of the level, as a vector string writes it.
    #[verifier::allow_in_spec]
    pub fn as_str(&self) -> &'static str
        returns
            (match self {
                MPR::X => "X",
                MPR::N => "N",
                MPR::L => "L",
                MPR::H => "H",
            }),
    {
        match self {
            MPR::X => "X",
            MPR::N => "N",
            MPR::L => "L",
            MPR::H => "H",
        }
    }

    /// The weight of the level under the given modified scope, in
    /// thousandths: a changed scope raises the weights of `L` and `H`, and a
    /// scope that is not defined counts as unchanged.
    #[verifier::allow_in_spec]
    pub fn scoped_value(&self, scope: &MS) -> u32
        returns
            (match (scope, self) {
                (MS::C, MPR::L) => 680u32,
                (MS::C, MPR::H) => 500u32,
                _ => self.value(),
            }),
    {
        match scope {
            MS::U | MS::X => self.value(),
            MS::C => match self {
                MPR::L => 680,
                MPR::H => 500,
                _ => self.value(),
            },
        }
    }

    /// The level that the code names, if a vector string can name one so.
    pub fn from_code(code: &str) -> (r: Option<MPR>)
        ensures
            match r {
                Some(x) => x.as_str()@ == code@,
                None => forall|x: MPR| #[trigger] x.as_str()@ != code@,
            },
    {
        if same(code, "X") {
            Some(MPR::X)
        } else if same(code, "N") {
            Some(MPR::N)
        } else if same(code, "L") {
            Some(MPR::L)
        } else if same(code, "H") {
            Some(MPR::H)
        } else {
            None
        }
    }

    proof fn lemma_code_plain(self)
        ensures
            is_plain(self.as_str()@),
    {
        reveal_strlit("X");
        reveal_strlit("N");
        reveal_strlit("L");
        reveal_strlit("H");
    }
}

/// Modified User Interaction.
#[derive(Clone, Copy, Debug, PartialEq, Eq, PartialOrd, Ord, Structural)]
pub enum MUI {
    /// Not Defined.
    X,
    /// None.
    N,
    /// Required.
    R,
}

impl MUI {
    /// The weight of the level, in thousandths.
    #[verifier::allow_in_spec]
    pub fn value(&self) -> u32
        returns
            (match self {
                MUI::X => 1000u32,
                MUI::N => 850u32,
                MUI::R => 620u32,
            }),
    {
        match self {
            MUI::X => 1000,
            MUI::N => 850,
            MUI::R => 620,
        }
    }

    /// The code of the level, as a vector string writes it.
    #[verifier::allow_in_spec]
    pub fn as_str(&self) -> &'static str
        returns
            (match self {
                MUI::X => "X",
                MUI::N => "N",
                MUI::R => "R",
            }),
    {
        match self {
            MUI::X => "X",
            MUI::N => "N",
            MUI::R => "R",
        }
    }

    /// The level that the code names, if a vector string can name one so.
    pub fn from_code(code: &str) -> (r: Option<MUI>)
        ensures
            match r {
                Some(x) => x.as_str()@ == code@,
                None => forall|x: MUI| #[trigger] x.as_str()@ != code@,
            },
    {
        if same(code, "X") {
            Some(MUI::X)
        } else if same(code, "N") {
            Some(MUI::N)
        } else if same(code, "R") {
            Some(MUI::R)
        } else {
            None
        }
    }

    proof fn lemma_code_plain(self)
        ensures
            is_plain(self.as_str()@),
    {
        reveal_strlit("X");
        reveal_strlit("N");
        reveal_strlit("R");
    }
}

/// Modified Scope.
#[derive(Clone, Copy, Debug, PartialEq, Eq, PartialOrd, Ord, Structural)]
pub enum MS {
    /// Not Defined.
    X,
    /// Unchanged.
    U,
    /// Changed.
    C,
}

impl MS {
    /// The weight of the level, in thousandths.
    #[verifier::allow_in_spec]
    pub fn value(&self) -> u32
        returns
            (match self {
                MS::X => 6420u32,
                MS::U => 6420u32,
                MS::C => 7520u32,
            }),
    {
        match self {
            MS::X => 6420,
            MS::U => 6420,
            MS::C => 7520,
        }
    }

    /// The code of the level, as a vector string writes it.
    #[verifier::allow_in_spec]
    pub fn as_str(&self) -> &'static str
        returns
            (match self {
                MS::X => "X",
                MS::U => "U",
                MS::C => "C",
            }),
    {
        match self {
            MS::X => "X",
            MS::U => "U",
            MS::C => "C",
        }
    }

    /// The level that the code names, if a vector string can name one so.
    pub fn from_code(code: &str) -> (r: Option<MS>)
        ensures
            match r {
                Some(x) => x.as_str()@ == code@,
                None => forall|x: MS| #[trigger] x.as_str()@ != code@,
            },
    {
        if same(code, "X") {
            Some(MS::X)
        } else if same(code, "U") {
            Some(MS::U)
        } else if same(code, "C") {
            Some(MS::C)
        } else {
            None
        }
    }

    proof fn lemma_code_plain(self)
        ensures
            is_plain(self.as_str()@),
    {
        reveal_strlit("X");
        reveal_strlit("U");
        reveal_strlit("C");
    }
}

/// Modified Confidentiality.
#[derive(Clone, Copy, Debug, PartialEq, Eq, PartialOrd, Ord, Structural)]
pub enum MC {
    /// Not Defined.
    X,
    /// None.
    N,
    /// Low.
    L,
    /// High.
    H,
}

impl MC {
    /// The weight of the level, in thousandths.
    #[verifier::allow_in_spec]
    pub fn value(&self) -> u32
        returns
            (match self {
                MC::X => 0u32,
                MC::N => 0u32,
                MC::L => 220u32,
                MC::H => 560u32,
            }),
    {
        match self {
            MC::X => 0,
            MC::N => 0,
            MC::L => 220,
            MC::H => 560,
        }
    }

    /// The code of the level, as a vector string writes it.
    #[verifier::allow_in_spec]
    pub fn as_str(&self) -> &'static str
        returns
            (match self {
                MC::X => "X",
                MC::N => "N",
                MC::L => "L",
                MC::H => "H",
            }),
    {
        match self {
            MC::X => "X",
            MC::N => "N",
            MC::L => "L",
            MC::H => "H",
        }
    }

    /// The level that the code names, if a vector string can name one so.
    pub fn from_code(code: &str) -> (r: Option<MC>)
        ensures
            match r {
                Some(x) => x.as_str()@ == code@,
                None => forall|x: MC| #[trigger] x.as_str()@ != code@,
            },
    {
        if same(code, "X") {
            Some(MC::X)
        } else if same(code, "N") {
            Some(MC::N)
        } else if same(code, "L") {
            Some(MC::L)
        } else if same(code, "H") {
            Some(MC::H)
        } else {
            None
        }
    }

    proof fn lemma_code_plain(self)
        ensures
            is_plain(self.as_str()@),
    {
        reveal_strlit("X");
        reveal_strlit("N");
        reveal_strlit("L");
        reveal_strlit("H");
    }
}

/// Modified Integrity.
#[derive(Clone, Copy, Debug, PartialEq, Eq, PartialOrd, Ord, Structural)]
pub enum MI {
    /// Not Defined.
    X,
    /// None.
    N,
    /// Low.
    L,
    /// High.
    H,
}

impl MI {
    /// The weight of the level, in thousandths.
    #[verifier::allow_in_spec]
    pub fn value(&self) -> u32
        returns
            (match self {
                MI::X => 0u32,
                MI::N => 0u32,
                MI::L => 220u32,
                MI::H => 560u32,
            }),
    {
        match self {
            MI::X => 0,
            MI::N => 0,
            MI::L => 220,
            MI::H => 560,
        }
    }

    /// The code of the level, as a vector string writes it.
    #[verifier::allow_in_spec]
    pub fn as_str(&self) -> &'static str
        returns
            (match self {
                MI::X => "X",
                MI::N => "N",
                MI::L => "L",
                MI::H => "H",
            }),
    {
        match self {
            MI::X => "X",
            MI::N => "N",
            MI::L => "L",
            MI::H => "H",
        }
    }

    /// The level that the code names, if a vector string can name one so.
    pub fn from_code(code: &str) -> (r: Option<MI>)
        ensures
            match r {
                Some(x) => x.as_str()@ == code@,
                None => forall|x: MI| #[trigger] x.as_str()@ != code@,
            },
    {
        if same(code, "X") {
            Some(MI::X)
        } else if same(code, "N") {
            Some(MI::N)
        } else if same(code, "L") {
            Some(MI::L)
        } else if same(code, "H") {
            Some(MI::H)
        } else {
            None
        }
    }

    proof fn lemma_code_plain(self)
        ensures
            is_plain(self.as_str()@),
    {
        reveal_strlit("X");
        reveal_strlit("N");
        reveal_strlit("L");
        reveal_strlit("H");
    }
}

/// Modified Availability.
#[derive(Clone, Copy, Debug, PartialEq, Eq, PartialOrd, Ord, Structural)]
pub enum MA {
    /// Not Defined.
    X,
    /// None.
    N,
    /// Low.
    L,
    /// High.
    H,
}

impl MA {
    /// The weight of the level, in thousandths.
    #[verifier::allow_in_spec]
    pub fn value(&self) -> u32
        returns
            (match self {
                MA::X => 0u32,
                MA::N => 0u32,
                MA::L => 220u32,
                MA::H => 560u32,
            }),
    {
        match self {
            MA::X => 0,
            MA::N => 0,
            MA::L => 220,
            MA::H => 560,
        }
    }

    /// The code of the level, as a vector string writes it.
    #[verifier::allow_in_spec]
    pub fn as_str(&self) -> &'static str
        returns
            (match self {
                MA::X => "X",
                MA::N => "N",
                MA::L => "L",
                MA::H => "H",
            }),
    {
        match self {
            MA::X => "X",
            MA::N => "N",
            MA::L => "L",
            MA::H => "H",
        }
    }

    /// The level that the code names, if a vector string can name one so.
    pub fn from_code(code: &str) -> (r: Option<MA>)
        ensures
            match r {
                Some(x) => x.as_str()@ == code@,
                None => forall|x: MA| #[trigger] x.as_str()@ != code@,
            },
    {
        if same(code, "X") {
            Some(MA::X)
        } else if same(code, "N") {
            Some(MA::N)
        } else if same(code, "L") {
            Some(MA::L)
        } else if same(code, "H") {
            Some(MA::H)
        } else {
            None
        }
    }

    proof fn lemma_code_plain(self)
        ensures
            is_plain(self.as_str()@),
    {
        reveal_strlit("X");
        reveal_strlit("N");
        reveal_strlit("L");
        reveal_strlit("H");
    }
}

/// One metric of a CVSS v3 vector: an axis together with its level.
///
/// Two metrics are equal when they rate the same axis, whatever their levels,
/// and metrics are ordered by their axes.
#[derive(Clone, Copy, Debug)]
pub enum CVSSv3Metric {
    /// Attack Vector, written `AV`.
    AttackVector(AV),
    /// Attack Complexity, written `AC`.
    AttackComplexity(AC),
    /// Privileges Required, written `PR`.
    PrivilegesRequired(PR),
    /// User Interaction, written `UI`.
    UserInteraction(UI),
    /// Scope, written `S`.
    Scope(S),
    /// Confidentiality, written `C`.
    Confidentiality(C),
    /// Integrity, written `I`.
    Integrity(I),
    /// Availability, written `A`.
    Availability(A),
    /// Exploit Code Maturity, written `E`.
    ExploitMaturity(E),
    /// Remediation Level, written `RL`.
    RemediationLevel(RL),
    /// Report Confidence, written `RC`.
    ReportConfidence(RC),
    /// Confidentiality Requirement, written `CR`.
    ConfidentialityRequirement(CR),
    /// Integrity Requirement, written `IR`.
    IntegrityRequirement(IR),
    /// Availability Requirement, written `AR`.
    AvailabilityRequirement(AR),
    /// Modified Attack Vector, written `MAV`.
    ModifiedAttackVector(MAV),
    /// Modified Attack Complexity, written `MAC`.
    ModifiedAttackComplexity(MAC),
    /// Modified Privileges Required, written `MPR`.
    ModifiedPrivilegesRequired(MPR),
    /// Modified User Interaction, written `MUI`.
    ModifiedUserInteraction(MUI),
    /// Modified Scope, written `MS`.
    ModifiedScope(MS),
    /// Modified Confidentiality, written `MC`.
    ModifiedConfidentiality(MC),
    /// Modified Integrity, written `MI`.
    ModifiedIntegrity(MI),
    /// Modified Availability, written `MA`.
    ModifiedAvailability(MA),
}

impl CVSSv3Metric {
    /// The weight of the metric's level, in thousandths.
    #[verifier::allow_in_spec]
    pub fn value(&self) -> u32
        returns
            (match self {
                CVSSv3Metric::AttackVector(x) => x.value(),
                CVSSv3Metric::AttackComplexity(x) => x.value(),
                CVSSv3Metric::PrivilegesRequired(x) => x.value(),
                CVSSv3Metric::UserInteraction(x) => x.value(),
                CVSSv3Metric::Scope(x) => x.value(),
                CVSSv3Metric::Confidentiality(x) => x.value(),
                CVSSv3Metric::Integrity(x) => x.value(),
                CVSSv3Metric::Availability(x) => x.value(),
                CVSSv3Metric::ExploitMaturity(x) => x.value(),
                CVSSv3Metric::RemediationLevel(x) => x.value(),
                CVSSv3Metric::ReportConfidence(x) => x.value(),
                CVSSv3Metric::ConfidentialityRequirement(x) => x.value(),
                CVSSv3Metric::IntegrityRequirement(x) => x.value(),
                CVSSv3Metric::AvailabilityRequirement(x) => x.value(),
                CVSSv3Metric::ModifiedAttackVector(x) => x.value(),
                CVSSv3Metric::ModifiedAttackComplexity(x) => x.value(),
                CVSSv3Metric::ModifiedPrivilegesRequired(x) => x.value(),
                CVSSv3Metric::ModifiedUserInteraction(x) => x.value(),
                CVSSv3Metric::ModifiedScope(x) => x.value(),
                CVSSv3Metric::ModifiedConfidentiality(x) => x.value(),
                CVSSv3Metric::ModifiedIntegrity(x) => x.value(),
                CVSSv3Metric::ModifiedAvailability(x) => x.value(),
            }),
    {
        match self {
            CVSSv3Metric::AttackVector(x) => x.value(),
            CVSSv3Metric::AttackComplexity(x) => x.value(),
            CVSSv3Metric::PrivilegesRequired(x) => x.value(),
            CVSSv3Metric::UserInteraction(x) => x.value(),
            CVSSv3Metric::Scope(x) => x.value(),
            CVSSv3Metric::Confidentiality(x) => x.value(),
            CVSSv3Metric::Integrity(x) => x.value(),
            CVSSv3Metric::Availability(x) => x.value(),
            CVSSv3Metric::ExploitMaturity(x) => x.value(),
            CVSSv3Metric::RemediationLevel(x) => x.value(),
            CVSSv3Metric::ReportConfidence(x) => x.value(),
            CVSSv3Metric::ConfidentialityRequirement(x) => x.value(),
            CVSSv3Metric::IntegrityRequirement(x) => x.value(),
            CVSSv3Metric::AvailabilityRequirement(x) => x.value(),
            CVSSv3Metric::ModifiedAttackVector(x) => x.value(),
            CVSSv3Metric::ModifiedAttackComplexity(x) => x.value(),
            CVSSv3Metric::ModifiedPrivilegesRequired(x) => x.value(),
            CVSSv3Metric::ModifiedUserInteraction(x) => x.value(),
            CVSSv3Metric::ModifiedScope(x) => x.value(),
            CVSSv3Metric::ModifiedConfidentiality(x) => x.value(),
            CVSSv3Metric::ModifiedIntegrity(x) => x.value(),
            CVSSv3Metric::ModifiedAvailability(x) => x.value(),
        }
    }

    /// The token of the metric: the code of its axis, a colon, and the code
    /// of its level.
    pub fn to_string(&self) -> (s: String)
        ensures
            s@ == token(*self),
    {
        spell(self)
    }

    /// What the axis code of each metric is made of.
    pub proof fn lemma_axis_code_shape(self)
        ensures
            shape(self.axis_code()) == (match self {
                CVSSv3Metric::AttackVector(_) => (2nat, 'A', 'V', ' '),
                CVSSv3Metric::AttackComplexity(_) => (2nat, 'A', 'C', ' '),
                CVSSv3Metric::PrivilegesRequired(_) => (2nat, 'P', 'R', ' '),
                CVSSv3Metric::UserInteraction(_) => (2nat, 'U', 'I', ' '),
                CVSSv3Metric::Scope(_) => (1nat, 'S', ' ', ' '),
                CVSSv3Metric::Confidentiality(_) => (1nat, 'C', ' ', ' '),
                CVSSv3Metric::Integrity(_) => (1nat, 'I', ' ', ' '),
                CVSSv3Metric::Availability(_) => (1nat, 'A', ' ', ' '),
                CVSSv3Metric::ExploitMaturity(_) => (1nat, 'E', ' ', ' '),
                CVSSv3Metric::RemediationLevel(_) => (2nat, 'R', 'L', ' '),
                CVSSv3Metric::ReportConfidence(_) => (2nat, 'R', 'C', ' '),
                CVSSv3Metric::ConfidentialityRequirement(_) => (2nat, 'C', 'R', ' '),
                CVSSv3Metric::IntegrityRequirement(_) => (2nat, 'I', 'R', ' '),
                CVSSv3Metric::AvailabilityRequirement(_) => (2nat, 'A', 'R', ' '),
                CVSSv3Metric::ModifiedAttackVector(_) => (3nat, 'M', 'A', 'V'),
                CVSSv3Metric::ModifiedAttackComplexity(_) => (3nat, 'M', 'A', 'C'),
                CVSSv3Metric::ModifiedPrivilegesRequired(_) => (3nat, 'M', 'P', 'R'),
                CVSSv3Metric::ModifiedUserInteraction(_) => (3nat, 'M', 'U', 'I'),
                CVSSv3Metric::ModifiedScope(_) => (2nat, 'M', 'S', ' '),
                CVSSv3Metric::ModifiedConfidentiality(_) => (2nat, 'M', 'C', ' '),
                CVSSv3Metric::ModifiedIntegrity(_) => (2nat, 'M', 'I', ' '),
                CVSSv3Metric::ModifiedAvailability(_) => (2nat, 'M', 'A', ' '),
            }),
    {
        reveal_strlit("AV");
        reveal_strlit("AC");
        reveal_strlit("PR");
        reveal_strlit("UI");
        reveal_strlit("S");
        reveal_strlit("C");
        reveal_strlit("I");
        reveal_strlit("A");
        reveal_strlit("E");
        reveal_strlit("RL");
        reveal_strlit("RC");
        reveal_strlit("CR");
        reveal_strlit("IR");
        reveal_strlit("AR");
        reveal_strlit("MAV");
        reveal_strlit("MAC");
        reveal_strlit("MPR");
        reveal_strlit("MUI");
        reveal_strlit("MS");
        reveal_strlit("MC");
        reveal_strlit("MI");
        reveal_strlit("MA");
    }

    /// What the level code of each metric is made of.
    pub proof fn lemma_level_code_shape(self)
        ensures
            shape(self.level_code()) == (match self {
                CVSSv3Metric::AttackVector(AV::N) => (1nat, 'N', ' ', ' '),
                CVSSv3Metric::AttackVector(AV::A) => (1nat, 'A', ' ', ' '),
                CVSSv3Metric::AttackVector(AV::L) => (1nat, 'L', ' ', ' '),
                CVSSv3Metric::AttackVector(AV::P) => (1nat, 'P', ' ', ' '),
                CVSSv3Metric::AttackComplexity(AC::L) => (1nat, 'L', ' ', ' '),
                CVSSv3Metric::AttackComplexity(AC::H) => (1nat, 'H', ' ', ' '),
                CVSSv3Metric::PrivilegesRequired(PR::N) => (1nat, 'N', ' ', ' '),
                CVSSv3Metric::PrivilegesRequired(PR::L) => (1nat, 'L', ' ', ' '),
                CVSSv3Metric::PrivilegesRequired(PR::H) => (1nat, 'H', ' ', ' '),
                CVSSv3Metric::UserInteraction(UI::N) => (1nat, 'N', ' ', ' '),
                CVSSv3Metric::UserInteraction(UI::R) => (1nat, 'R', ' ', ' '),
                CVSSv3Metric::Scope(S::U) => (1nat, 'U', ' ', ' '),
                CVSSv3Metric::Scope(S::C) => (1nat, 'C', ' ', ' '),
                CVSSv3Metric::Confidentiality(C::H) => (1nat, 'H', ' ', ' '),
                CVSSv3Metric::Confidentiality(C::L) => (1nat, 'L', ' ', ' '),
                CVSSv3Metric::Confidentiality(C::N) => (1nat, 'N', ' ', ' '),
                CVSSv3Metric::Integrity(I::H) => (1nat, 'H', ' ', ' '),
                CVSSv3Metric::Integrity(I::L) => (1nat, 'L', ' ', ' '),
                CVSSv3Metric::Integrity(I::N) => (1nat, 'N', ' ', ' '),
                CVSSv3Metric::Availability(A::H) => (1nat, 'H', ' ', ' '),
                CVSSv3Metric::Availability(A::L) => (1nat, 'L', ' ', ' '),
                CVSSv3Metric::Availability(A::N) => (1nat, 'N', ' ', ' '),
                CVSSv3Metric::ExploitMaturity(E::X) => (1nat, 'X', ' ', ' '),
                CVSSv3Metric::ExploitMaturity(E::H) => (1nat, 'H', ' ', ' '),
                CVSSv3Metric::ExploitMaturity(E::F) => (1nat, 'F', ' ', ' '),
                CVSSv3Metric::ExploitMaturity(E::P) => (1nat, 'P', ' ', ' '),
                CVSSv3Metric::ExploitMaturity(E::U) => (1nat, 'U', ' ', ' '),
                CVSSv3Metric::RemediationLevel(RL::X) => (1nat, 'X', ' ', ' '),
                CVSSv3Metric::RemediationLevel(RL::U) => (1nat, 'U', ' ', ' '),
                CVSSv3Metric::RemediationLevel(RL::W) => (1nat, 'W', ' ', ' '),
                CVSSv3Metric::RemediationLevel(RL::T) => (1nat, 'T', ' ', ' '),
                CVSSv3Metric::RemediationLevel(RL::O) => (1nat, 'O', ' ', ' '),
                CVSSv3Metric::ReportConfidence(RC::X) => (1nat, 'X', ' ', ' '),
                CVSSv3Metric::ReportConfidence(RC::C) => (1nat, 'C', ' ', ' '),
                CVSSv3Metric::ReportConfidence(RC::R) => (1nat, 'R', ' ', ' '),
                CVSSv3Metric::ReportConfidence(RC::U) => (1nat, 'U', ' ', ' '),
                CVSSv3Metric::ConfidentialityRequirement(CR::X) => (1nat, 'X', ' ', ' '),
                CVSSv3Metric::ConfidentialityRequirement(CR::H) => (1nat, 'H', ' ', ' '),
                CVSSv3Metric::ConfidentialityRequirement(CR::M) => (1nat, 'M', ' ', ' '),
                CVSSv3Metric::ConfidentialityRequirement(CR::L) => (1nat, 'L', ' ', ' '),
                CVSSv3Metric::IntegrityRequirement(IR::X) => (1nat, 'X', ' ', ' '),
                CVSSv3Metric::IntegrityRequirement(IR::H) => (1nat, 'H', ' ', ' '),
                CVSSv3Metric::IntegrityRequirement(IR::M) => (1nat, 'M', ' ', ' '),
                CVSSv3Metric::IntegrityRequirement(IR::L) => (1nat, 'L', ' ', ' '),
                CVSSv3Metric::AvailabilityRequirement(AR::X) => (1nat, 'X', ' ', ' '),
                CVSSv3Metric::AvailabilityRequirement(AR::H) => (1nat, 'H', ' ', ' '),
                CVSSv3Metric::AvailabilityRequirement(AR::M) => (1nat, 'M', ' ', ' '),
                CVSSv3Metric::AvailabilityRequirement(AR::L) => (1nat, 'L', ' ', ' '),
                CVSSv3Metric::ModifiedAttackVector(MAV::N) => (1nat, 'N', ' ', ' '),
                CVSSv3Metric::ModifiedAttackVector(MAV::A) => (1nat, 'A', ' ', ' '),
                CVSSv3Metric::ModifiedAttackVector(MAV::L) => (1nat, 'L', ' ', ' '),
                CVSSv3Metric::ModifiedAttackVector(MAV::P) => (1nat, 'P', ' ', ' '),
                CVSSv3Metric::ModifiedAttackComplexity(MAC::X) => (1nat, 'X', ' ', ' '),
                CVSSv3Metric::ModifiedAttackComplexity(MAC::L) => (1nat, 'L', ' ', ' '),
                CVSSv3Metric::ModifiedAttackComplexity(MAC::H) => (1nat, 'H', ' ', ' '),
                CVSSv3Metric::ModifiedPrivilegesRequired(MPR::X) => (1nat, 'X', ' ', ' '),
                CVSSv3Metric::ModifiedPrivilegesRequired(MPR::N) => (1nat, 'N', ' ', ' '),
                CVSSv3Metric::ModifiedPrivilegesRequired(MPR::L) => (1nat, 'L', ' ', ' '),
                CVSSv3Metric::ModifiedPrivilegesRequired(MPR::H) => (1nat, 'H', ' ', ' '),
                CVSSv3Metric::ModifiedUserInteraction(MUI::X) => (1nat, 'X', ' ', ' '),
                CVSSv3Metric::ModifiedUserInteraction(MUI::N) => (1nat, 'N', ' ', ' '),
                CVSSv3Metric::ModifiedUserInteraction(MUI::R) => (1nat, 'R', ' ', ' '),
                CVSSv3Metric::ModifiedScope(MS::X) => (1nat, 'X', ' ', ' '),
                CVSSv3Metric::ModifiedScope(MS::U) => (1nat, 'U', ' ', ' '),
                CVSSv3Metric::ModifiedScope(MS::C) => (1nat, 'C', ' ', ' '),
                CVSSv3Metric::ModifiedConfidentiality(MC::X) => (1nat, 'X', ' ', ' '),
                CVSSv3Metric::ModifiedConfidentiality(MC::N) => (1nat, 'N', ' ', ' '),
                CVSSv3Metric::ModifiedConfidentiality(MC::L) => (1nat, 'L', ' ', ' '),
                CVSSv3Metric::ModifiedConfidentiality(MC::H) => (1nat, 'H', ' ', ' '),
                CVSSv3Metric::ModifiedIntegrity(MI::X) => (1nat, 'X', ' ', ' '),
                CVSSv3Metric::ModifiedIntegrity(MI::N) => (1nat, 'N', ' ', ' '),
                CVSSv3Metric::ModifiedIntegrity(MI::L) => (1nat, 'L', ' ', ' '),
                CVSSv3Metric::ModifiedIntegrity(MI::H) => (1nat, 'H', ' ', ' '),
                CVSSv3Metric::ModifiedAvailability(MA::X) => (1nat, 'X', ' ', ' '),
                CVSSv3Metric::ModifiedAvailability(MA::N) => (1nat, 'N', ' ', ' '),
                CVSSv3Metric::ModifiedAvailability(MA::L) => (1nat, 'L', ' ', ' '),
                CVSSv3Metric::ModifiedAvailability(MA::H) => (1nat, 'H', ' ', ' '),
            }),
    {
        reveal_strlit("N");
        reveal_strlit("A");
        reveal_strlit("L");
        reveal_strlit("P");
        reveal_strlit("H");
        reveal_strlit("R");
        reveal_strlit("U");
        reveal_strlit("C");
        reveal_strlit("X");
        reveal_strlit("F");
        reveal_strlit("W");
        reveal_strlit("T");
        reveal_strlit("O");
        reveal_strlit("M");
    }
}

impl Metric for CVSSv3Metric {
    open spec fn axis(self) -> nat {
        match self {
            CVSSv3Metric::AttackVector(_) => 0,
            CVSSv3Metric::AttackComplexity(_) => 1,
            CVSSv3Metric::PrivilegesRequired(_) => 2,
            CVSSv3Metric::UserInteraction(_) => 3,
            CVSSv3Metric::Scope(_) => 4,
            CVSSv3Metric::Confidentiality(_) => 5,
            CVSSv3Metric::Integrity(_) => 6,
            CVSSv3Metric::Availability(_) => 7,
            CVSSv3Metric::ExploitMaturity(_) => 8,
            CVSSv3Metric::RemediationLevel(_) => 9,
            CVSSv3Metric::ReportConfidence(_) => 10,
            CVSSv3Metric::ConfidentialityRequirement(_) => 11,
            CVSSv3Metric::IntegrityRequirement(_) => 12,
            CVSSv3Metric::AvailabilityRequirement(_) => 13,
            CVSSv3Metric::ModifiedAttackVector(_) => 14,
            CVSSv3Metric::ModifiedAttackComplexity(_) => 15,
            CVSSv3Metric::ModifiedPrivilegesRequired(_) => 16,
            CVSSv3Metric::ModifiedUserInteraction(_) => 17,
            CVSSv3Metric::ModifiedScope(_) => 18,
            CVSSv3Metric::ModifiedConfidentiality(_) => 19,
            CVSSv3Metric::ModifiedIntegrity(_) => 20,
            CVSSv3Metric::ModifiedAvailability(_) => 21,
        }
    }

    open spec fn axes() -> nat {
        22
    }

    open spec fn mandatory() -> nat {
        8
    }

    open spec fn in_grammar(self) -> bool {
        true
    }

    open spec fn axis_code(self) -> Seq<char> {
        match self {
            CVSSv3Metric::AttackVector(_) => "AV"@,
            CVSSv3Metric::AttackComplexity(_) => "AC"@,
            CVSSv3Metric::PrivilegesRequired(_) => "PR"@,
            CVSSv3Metric::UserInteraction(_) => "UI"@,
            CVSSv3Metric::Scope(_) => "S"@,
            CVSSv3Metric::Confidentiality(_) => "C"@,
            CVSSv3Metric::Integrity(_) => "I"@,
            CVSSv3Metric::Availability(_) => "A"@,
            CVSSv3Metric::ExploitMaturity(_) => "E"@,
            CVSSv3Metric::RemediationLevel(_) => "RL"@,
            CVSSv3Metric::ReportConfidence(_) => "RC"@,
            CVSSv3Metric::ConfidentialityRequirement(_) => "CR"@,
            CVSSv3Metric::IntegrityRequirement(_) => "IR"@,
            CVSSv3Metric::AvailabilityRequirement(_) => "AR"@,
            CVSSv3Metric::ModifiedAttackVector(_) => "MAV"@,
            CVSSv3Metric::ModifiedAttackComplexity(_) => "MAC"@,
            CVSSv3Metric::ModifiedPrivilegesRequired(_) => "MPR"@,
            CVSSv3Metric::ModifiedUserInteraction(_) => "MUI"@,
            CVSSv3Metric::ModifiedScope(_) => "MS"@,
            CVSSv3Metric::ModifiedConfidentiality(_) => "MC"@,
            CVSSv3Metric::ModifiedIntegrity(_) => "MI"@,
            CVSSv3Metric::ModifiedAvailability(_) => "MA"@,
        }
    }

    open spec fn level_code(self) -> Seq<char> {
        match self {
            CVSSv3Metric::AttackVector(x) => x.as_str()@,
            CVSSv3Metric::AttackComplexity(x) => x.as_str()@,
            CVSSv3Metric::PrivilegesRequired(x) => x.as_str()@,
            CVSSv3Metric::UserInteraction(x) => x.as_str()@,
            CVSSv3Metric::Scope(x) => x.as_str()@,
            CVSSv3Metric::Confidentiality(x) => x.as_str()@,
            CVSSv3Metric::Integrity(x) => x.as_str()@,
            CVSSv3Metric::Availability(x) => x.as_str()@,
            CVSSv3Metric::ExploitMaturity(x) => x.as_str()@,
            CVSSv3Metric::RemediationLevel(x) => x.as_str()@,
            CVSSv3Metric::ReportConfidence(x) => x.as_str()@,
            CVSSv3Metric::ConfidentialityRequirement(x) => x.as_str()@,
            CVSSv3Metric::IntegrityRequirement(x) => x.as_str()@,
            CVSSv3Metric::AvailabilityRequirement(x) => x.as_str()@,
            CVSSv3Metric::ModifiedAttackVector(x) => x.as_str()@,
            CVSSv3Metric::ModifiedAttackComplexity(x) => x.as_str()@,
            CVSSv3Metric::ModifiedPrivilegesRequired(x) => x.as_str()@,
            CVSSv3Metric::ModifiedUserInteraction(x) => x.as_str()@,
            CVSSv3Metric::ModifiedScope(x) => x.as_str()@,
            CVSSv3Metric::ModifiedConfidentiality(x) => x.as_str()@,
            CVSSv3Metric::ModifiedIntegrity(x) => x.as_str()@,
            CVSSv3Metric::ModifiedAvailability(x) => x.as_str()@,
        }
    }

    proof fn lemma_axes() {
    }

    proof fn lemma_axis_in_range(self) {
    }

    proof fn lemma_codes_plain(self) {
        match self {
            CVSSv3Metric::AttackVector(x) => {
                reveal_strlit("AV");
                x.lemma_code_plain();
            },
            CVSSv3Metric::AttackComplexity(x) => {
                reveal_strlit("AC");
                x.lemma_code_plain();
            },
            CVSSv3Metric::PrivilegesRequired(x) => {
                reveal_strlit("PR");
                x.lemma_code_plain();
            },
            CVSSv3Metric::UserInteraction(x) => {
                reveal_strlit("UI");
                x.lemma_code_plain();
            },
            CVSSv3Metric::Scope(x) => {
                reveal_strlit("S");
                x.lemma_code_plain();
            },
            CVSSv3Metric::Confidentiality(x) => {
                reveal_strlit("C");
                x.lemma_code_plain();
            },
            CVSSv3Metric::Integrity(x) => {
                reveal_strlit("I");
                x.lemma_code_plain();
            },
            CVSSv3Metric::Availability(x) => {
                reveal_strlit("A");
                x.lemma_code_plain();
            },
            CVSSv3Metric::ExploitMaturity(x) => {
                reveal_strlit("E");
                x.lemma_code_plain();
            },
            CVSSv3Metric::RemediationLevel(x) => {
                reveal_strlit("RL");
                x.lemma_code_plain();
            },
            CVSSv3Metric::ReportConfidence(x) => {
                reveal_strlit("RC");
                x.lemma_code_plain();
            },
            CVSSv3Metric::ConfidentialityRequirement(x) => {
                reveal_strlit("CR");
                x.lemma_code_plain();
            },
            CVSSv3Metric::IntegrityRequirement(x) => {
                reveal_strlit("IR");
                x.lemma_code_plain();
            },
            CVSSv3Metric::AvailabilityRequirement(x) => {
                reveal_strlit("AR");
                x.lemma_code_plain();
            },
            CVSSv3Metric::ModifiedAttackVector(x) => {
                reveal_strlit("MAV");
                x.lemma_code_plain();
            },
            CVSSv3Metric::ModifiedAttackComplexity(x) => {
                reveal_strlit("MAC");
                x.lemma_code_plain();
            },
            CVSSv3Metric::ModifiedPrivilegesRequired(x) => {
                reveal_strlit("MPR");
                x.lemma_code_plain();
            },
            CVSSv3Metric::ModifiedUserInteraction(x) => {
                reveal_strlit("MUI");
                x.lemma_code_plain();
            },
            CVSSv3Metric::ModifiedScope(x) => {
                reveal_strlit("MS");
                x.lemma_code_plain();
            },
            CVSSv3Metric::ModifiedConfidentiality(x) => {
                reveal_strlit("MC");
                x.lemma_code_plain();
            },
            CVSSv3Metric::ModifiedIntegrity(x) => {
                reveal_strlit("MI");
                x.lemma_code_plain();
            },
            CVSSv3Metric::ModifiedAvailability(x) => {
                reveal_strlit("MA");
                x.lemma_code_plain();
            },
        }
    }

    proof fn lemma_codes_injective(self, other: Self) {
        self.lemma_axis_code_shape();
        other.lemma_axis_code_shape();
        assert(self.axis() == other.axis());
        self.lemma_level_code_shape();
        other.lemma_level_code_shape();
    }

    fn axis_index(&self) -> (i: usize) {
        match self {
            CVSSv3Metric::AttackVector(_) => 0,
            CVSSv3Metric::AttackComplexity(_) => 1,
            CVSSv3Metric::PrivilegesRequired(_) => 2,
            CVSSv3Metric::UserInteraction(_) => 3,
            CVSSv3Metric::Scope(_) => 4,
            CVSSv3Metric::Confidentiality(_) => 5,
            CVSSv3Metric::Integrity(_) => 6,
            CVSSv3Metric::Availability(_) => 7,
            CVSSv3Metric::ExploitMaturity(_) => 8,
            CVSSv3Metric::RemediationLevel(_) => 9,
            CVSSv3Metric::ReportConfidence(_) => 10,
            CVSSv3Metric::ConfidentialityRequirement(_) => 11,
            CVSSv3Metric::IntegrityRequirement(_) => 12,
            CVSSv3Metric::AvailabilityRequirement(_) => 13,
            CVSSv3Metric::ModifiedAttackVector(_) => 14,
            CVSSv3Metric::ModifiedAttackComplexity(_) => 15,
            CVSSv3Metric::ModifiedPrivilegesRequired(_) => 16,
            CVSSv3Metric::ModifiedUserInteraction(_) => 17,
            CVSSv3Metric::ModifiedScope(_) => 18,
            CVSSv3Metric::ModifiedConfidentiality(_) => 19,
            CVSSv3Metric::ModifiedIntegrity(_) => 20,
            CVSSv3Metric::ModifiedAvailability(_) => 21,
        }
    }

    fn axis_count() -> (n: usize) {
        22
    }

    fn mandatory_count() -> (n: usize) {
        8
    }

    fn axis_str(&self) -> (s: &'static str) {
        match self {
            CVSSv3Metric::AttackVector(_) => "AV",
            CVSSv3Metric::AttackComplexity(_) => "AC",
            CVSSv3Metric::PrivilegesRequired(_) => "PR",
            CVSSv3Metric::UserInteraction(_) => "UI",
            CVSSv3Metric::Scope(_) => "S",
            CVSSv3Metric::Confidentiality(_) => "C",
            CVSSv3Metric::Integrity(_) => "I",
            CVSSv3Metric::Availability(_) => "A",
            CVSSv3Metric::ExploitMaturity(_) => "E",
            CVSSv3Metric::RemediationLevel(_) => "RL",
            CVSSv3Metric::ReportConfidence(_) => "RC",
            CVSSv3Metric::ConfidentialityRequirement(_) => "CR",
            CVSSv3Metric::IntegrityRequirement(_) => "IR",
            CVSSv3Metric::AvailabilityRequirement(_) => "AR",
            CVSSv3Metric::ModifiedAttackVector(_) => "MAV",
            CVSSv3Metric::ModifiedAttackComplexity(_) => "MAC",
            CVSSv3Metric::ModifiedPrivilegesRequired(_) => "MPR",
            CVSSv3Metric::ModifiedUserInteraction(_) => "MUI",
            CVSSv3Metric::ModifiedScope(_) => "MS",
            CVSSv3Metric::ModifiedConfidentiality(_) => "MC",
            CVSSv3Metric::ModifiedIntegrity(_) => "MI",
            CVSSv3Metric::ModifiedAvailability(_) => "MA",
        }
    }

    fn level_str(&self) -> (s: &'static str) {
        match self {
            CVSSv3Metric::AttackVector(x) => x.as_str(),
            CVSSv3Metric::AttackComplexity(x) => x.as_str(),
            CVSSv3Metric::PrivilegesRequired(x) => x.as_str(),
            CVSSv3Metric::UserInteraction(x) => x.as_str(),
            CVSSv3Metric::Scope(x) => x.as_str(),
            CVSSv3Metric::Confidentiality(x) => x.as_str(),
            CVSSv3Metric::Integrity(x) => x.as_str(),
            CVSSv3Metric::Availability(x) => x.as_str(),
            CVSSv3Metric::ExploitMaturity(x) => x.as_str(),
            CVSSv3Metric::RemediationLevel(x) => x.as_str(),
            CVSSv3Metric::ReportConfidence(x) => x.as_str(),
            CVSSv3Metric::ConfidentialityRequirement(x) => x.as_str(),
            CVSSv3Metric::IntegrityRequirement(x) => x.as_str(),
            CVSSv3Metric::AvailabilityRequirement(x) => x.as_str(),
            CVSSv3Metric::ModifiedAttackVector(x) => x.as_str(),
            CVSSv3Metric::ModifiedAttackComplexity(x) => x.as_str(),
            CVSSv3Metric::ModifiedPrivilegesRequired(x) => x.as_str(),
            CVSSv3Metric::ModifiedUserInteraction(x) => x.as_str(),
            CVSSv3Metric::ModifiedScope(x) => x.as_str(),
            CVSSv3Metric::ModifiedConfidentiality(x) => x.as_str(),
            CVSSv3Metric::ModifiedIntegrity(x) => x.as_str(),
            CVSSv3Metric::ModifiedAvailability(x) => x.as_str(),
        }
    }

    fn axis_of_code(code: &str) -> (r: Option<usize>) {
        let r = 
        if same(code, "AV") {
            Some(0)
        } else if same(code, "AC") {
            Some(1)
        } else if same(code, "PR") {
            Some(2)
        } else if same(code, "UI") {
            Some(3)
        } else if same(code, "S") {
            Some(4)
        } else if same(code, "C") {
            Some(5)
        } else if same(code, "I") {
            Some(6)
        } else if same(code, "A") {
            Some(7)
        } else if same(code, "E") {
            Some(8)
        } else if same(code, "RL") {
            Some(9)
        } else if same(code, "RC") {
            Some(10)
        } else if same(code, "CR") {
            Some(11)
        } else if same(code, "IR") {
            Some(12)
        } else if same(code, "AR") {
            Some(13)
        } else if same(code, "MAV") {
            Some(14)
        } else if same(code, "MAC") {
            Some(15)
        } else if same(code, "MPR") {
            Some(16)
        } else if same(code, "MUI") {
            Some(17)
        } else if same(code, "MS") {
            Some(18)
        } else if same(code, "MC") {
            Some(19)
        } else if same(code, "MI") {
            Some(20)
        } else if same(code, "MA") {
            Some(21)
        } else {
            None
        };
        proof {
            assert forall|m: Self| #[trigger] m.axis_code() == code@ implies Some(
                m.axis() as usize,
            ) == r by {
                m.lemma_axis_code_shape();
                reveal_strlit("AV");
                reveal_strlit("AC");
                reveal_strlit("PR");
                reveal_strlit("UI");
                reveal_strlit("S");
                reveal_strlit("C");
                reveal_strlit("I");
                reveal_strlit("A");
                reveal_strlit("E");
                reveal_strlit("RL");
                reveal_strlit("RC");
                reveal_strlit("CR");
                reveal_strlit("IR");
                reveal_strlit("AR");
                reveal_strlit("MAV");
                reveal_strlit("MAC");
                reveal_strlit("MPR");
                reveal_strlit("MUI");
                reveal_strlit("MS");
                reveal_strlit("MC");
                reveal_strlit("MI");
                reveal_strlit("MA");
            }
        }
        r
    }

    fn with_level(axis: usize, code: &str) -> (r: Option<Self>) {
        match axis {
            0 => match AV::from_code(code) {
                Some(x) => Some(CVSSv3Metric::AttackVector(x)),
                None => None,
            },
            1 => match AC::from_code(code) {
                Some(x) => Some(CVSSv3Metric::AttackComplexity(x)),
                None => None,
            },
            2 => match PR::from_code(code) {
                Some(x) => Some(CVSSv3Metric::PrivilegesRequired(x)),
                None => None,
            },
            3 => match UI::from_code(code) {
                Some(x) => Some(CVSSv3Metric::UserInteraction(x)),
                None => None,
            },
            4 => match S::from_code(code) {
                Some(x) => Some(CVSSv3Metric::Scope(x)),
                None => None,
            },
            5 => match C::from_code(code) {
                Some(x) => Some(CVSSv3Metric::Confidentiality(x)),
                None => None,
            },
            6 => match I::from_code(code) {
                Some(x) => Some(CVSSv3Metric::Integrity(x)),
                None => None,
            },
            7 => match A::from_code(code) {
                Some(x) => Some(CVSSv3Metric::Availability(x)),
                None => None,
            },
            8 => match E::from_code(code) {
                Some(x) => Some(CVSSv3Metric::ExploitMaturity(x)),
                None => None,
            },
            9 => match RL::from_code(code) {
                Some(x) => Some(CVSSv3Metric::RemediationLevel(x)),
                None => None,
            },
            10 => match RC::from_code(code) {
                Some(x) => Some(CVSSv3Metric::ReportConfidence(x)),
                None => None,
            },
            11 => match CR::from_code(code) {
                Some(x) => Some(CVSSv3Metric::ConfidentialityRequirement(x)),
                None => None,
            },
            12 => match IR::from_code(code) {
                Some(x) => Some(CVSSv3Metric::IntegrityRequirement(x)),
                None => None,
            },
            13 => match AR::from_code(code) {
                Some(x) => Some(CVSSv3Metric::AvailabilityRequirement(x)),
                None => None,
            },
            14 => match MAV::from_code(code) {
                Some(x) => Some(CVSSv3Metric::ModifiedAttackVector(x)),
                None => None,
            },
            15 => match MAC::from_code(code) {
                Some(x) => Some(CVSSv3Metric::ModifiedAttackComplexity(x)),
                None => None,
            },
            16 => match MPR::from_code(code) {
                Some(x) => Some(CVSSv3Metric::ModifiedPrivilegesRequired(x)),
                None => None,
            },
            17 => match MUI::from_code(code) {
                Some(x) => Some(CVSSv3Metric::ModifiedUserInteraction(x)),
                None => None,
            },
            18 => match MS::from_code(code) {
                Some(x) => Some(CVSSv3Metric::ModifiedScope(x)),
                None => None,
            },
            19 => match MC::from_code(code) {
                Some(x) => Some(CVSSv3Metric::ModifiedConfidentiality(x)),
                None => None,
            },
            20 => match MI::from_code(code) {
                Some(x) => Some(CVSSv3Metric::ModifiedIntegrity(x)),
                None => None,
            },
            _ => match MA::from_code(code) {
                Some(x) => Some(CVSSv3Metric::ModifiedAvailability(x)),
                None => None,
            },
        }
    }
}

impl PartialEq for CVSSv3Metric {
    fn eq(&self, other: &CVSSv3Metric) -> (r: bool) {
        self.axis_index() == other.axis_index()
    }
}

impl Eq for CVSSv3Metric {
}

impl PartialEqSpecImpl for CVSSv3Metric {
    open spec fn obeys_eq_spec() -> bool {
        true
    }

    open spec fn eq_spec(&self, other: &CVSSv3Metric) -> bool {
        self.axis() == other.axis()
    }
}

impl PartialOrd for CVSSv3Metric {
    fn partial_cmp(&self, other: &CVSSv3Metric) -> (r: Option<Ordering>) {
        let mine = self.axis_index();
        let theirs = other.axis_index();
        if mine < theirs {
            Some(Ordering::Less)
        } else if mine == theirs {
            Some(Ordering::Equal)
        } else {
            Some(Ordering::Greater)
        }
    }
}

impl PartialOrdSpecImpl for CVSSv3Metric {
    open spec fn obeys_partial_cmp_spec() -> bool {
        true
    }

    open spec fn partial_cmp_spec(&self, other: &CVSSv3Metric) -> Option<Ordering> {
        if self.axis() < other.axis() {
            Some(Ordering::Less)
        } else if self.axis() == other.axis() {
            Some(Ordering::Equal)
        } else {
            Some(Ordering::Greater)
        }
    }
}

} // verus!
