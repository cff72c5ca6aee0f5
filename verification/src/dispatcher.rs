//! Provers and what the verification service says about proofs.

pub mod echidna_client;

use crate::text::{chars_of, lowercase, same_text, string_of_range};
use vstd::prelude::*;

verus! {

/// The proof assistants that the bot can dispatch to.
#[derive(Debug, Clone, Copy, PartialEq, Eq, Hash, Structural)]
pub enum ProverKind {
    Agda,
    Coq,
    Lean,
    Isabelle,
    Z3,
    Cvc5,
    Metamath,
    HolLight,
    Mizar,
    Pvs,
    Acl2,
    Hol4,
}

/// How the verification service judged a proof.
#[derive(Debug, Clone, Copy, PartialEq, Eq, Structural)]
pub enum ProofStatus {
    Verified,
    Failed,
    Timeout,
    Error,
    Unknown,
}

/// The outcome of one proof verification.
#[derive(Debug)]
pub struct ProofResult {
    pub status: ProofStatus,
    pub message: String,
    pub prover_output: String,
    pub duration_ms: u64,
    pub artifacts: Vec<String>,
}

/// All provers, in declaration order.
pub open spec fn all_provers() -> Seq<ProverKind> {
    seq![
        ProverKind::Agda,
        ProverKind::Coq,
        ProverKind::Lean,
        ProverKind::Isabelle,
        ProverKind::Z3,
        ProverKind::Cvc5,
        ProverKind::Metamath,
        ProverKind::HolLight,
        ProverKind::Mizar,
        ProverKind::Pvs,
        ProverKind::Acl2,
        ProverKind::Hol4,
    ]
}

/// The file extension of a prover's sources, with its leading dot.
pub open spec fn extension(p: ProverKind) -> Seq<char> {
    match p {
        ProverKind::Coq => ".v"@,
        ProverKind::Lean => ".lean"@,
        ProverKind::Isabelle => ".thy"@,
        ProverKind::Agda => ".agda"@,
        ProverKind::Z3 => ".smt2"@,
        ProverKind::Cvc5 => ".smt2"@,
        ProverKind::Metamath => ".mm"@,
        ProverKind::HolLight => ".ml"@,
        ProverKind::Mizar => ".miz"@,
        ProverKind::Pvs => ".pvs"@,
        ProverKind::Acl2 => ".lisp"@,
        ProverKind::Hol4 => ".sml"@,
    }
}

/// The maturity tier of a prover: 1 mainstream, 2 stable, 3 experimental.
pub open spec fn tier_of(p: ProverKind) -> u8 {
    match p {
        ProverKind::Agda | ProverKind::Coq | ProverKind::Lean | ProverKind::Isabelle
        | ProverKind::Z3 | ProverKind::Cvc5 => 1,
        ProverKind::Metamath | ProverKind::HolLight | ProverKind::Mizar => 2,
        ProverKind::Pvs | ProverKind::Acl2 | ProverKind::Hol4 => 3,
    }
}

/// The prover that a bare, lower-case extension (no dot) stands for. The
/// extension `smt2` is shared by two provers and resolves to Z3.
pub open spec fn kind_of_bare_extension(e: Seq<char>) -> Option<ProverKind> {
    if e == "v"@ {
        Some(ProverKind::Coq)
    } else if e == "lean"@ {
        Some(ProverKind::Lean)
    } else if e == "thy"@ {
        Some(ProverKind::Isabelle)
    } else if e == "agda"@ {
        Some(ProverKind::Agda)
    } else if e == "smt2"@ {
        Some(ProverKind::Z3)
    } else if e == "mm"@ {
        Some(ProverKind::Metamath)
    } else if e == "ml"@ {
        Some(ProverKind::HolLight)
    } else if e == "miz"@ {
        Some(ProverKind::Mizar)
    } else if e == "pvs"@ {
        Some(ProverKind::Pvs)
    } else if e == "lisp"@ {
        Some(ProverKind::Acl2)
    } else if e == "sml"@ {
        Some(ProverKind::Hol4)
    } else {
        None
    }
}

/// `s` without its leading dots.
pub open spec fn without_leading_dots(s: Seq<char>) -> Seq<char>
    decreases s.len(),
{
    if s.len() > 0 && s[0] == '.' {
        without_leading_dots(s.drop_first())
    } else {
        s
    }
}

/// The prover that an extension stands for: leading dots are dropped and
/// letter case is ignored.
pub open spec fn kind_of_extension(ext: Seq<char>) -> Option<ProverKind> {
    kind_of_bare_extension(lowercase(without_leading_dots(ext)))
}

impl ProverKind {
    /// All provers, in declaration order.
    pub fn all() -> (r: Vec<ProverKind>)
        ensures
            r@ == all_provers(),
    {
        let r = vec![
            ProverKind::Agda,
            ProverKind::Coq,
            ProverKind::Lean,
            ProverKind::Isabelle,
            ProverKind::Z3,
            ProverKind::Cvc5,
            ProverKind::Metamath,
            ProverKind::HolLight,
            ProverKind::Mizar,
            ProverKind::Pvs,
            ProverKind::Acl2,
            ProverKind::Hol4,
        ];
        assert(r@ =~= all_provers());
        r
    }

    /// The name shown to people.
    pub open spec fn name(self) -> Seq<char> {
        match self {
            ProverKind::Agda => "Agda"@,
            ProverKind::Coq => "Coq"@,
            ProverKind::Lean => "Lean"@,
            ProverKind::Isabelle => "Isabelle"@,
            ProverKind::Z3 => "Z3"@,
            ProverKind::Cvc5 => "CVC5"@,
            ProverKind::Metamath => "Metamath"@,
            ProverKind::HolLight => "HOL Light"@,
            ProverKind::Mizar => "Mizar"@,
            ProverKind::Pvs => "PVS"@,
            ProverKind::Acl2 => "ACL2"@,
            ProverKind::Hol4 => "HOL4"@,
        }
    }

    /// The name shown to people.
    pub fn display_name(&self) -> (r: &'static str)
        ensures
            r@ == self.name(),
    {
        match self {
            ProverKind::Agda => "Agda",
            ProverKind::Coq => "Coq",
            ProverKind::Lean => "Lean",
            ProverKind::Isabelle => "Isabelle",
            ProverKind::Z3 => "Z3",
            ProverKind::Cvc5 => "CVC5",
            ProverKind::Metamath => "Metamath",
            ProverKind::HolLight => "HOL Light",
            ProverKind::Mizar => "Mizar",
            ProverKind::Pvs => "PVS",
            ProverKind::Acl2 => "ACL2",
            ProverKind::Hol4 => "HOL4",
        }
    }

    /// The maturity tier: 1 mainstream, 2 stable, 3 experimental.
    pub fn tier(&self) -> (r: u8)
        ensures
            r == tier_of(*self),
            1 <= r <= 3,
    {
        match self {
            ProverKind::Agda
            | ProverKind::Coq
            | ProverKind::Lean
            | ProverKind::Isabelle
            | ProverKind::Z3
            | ProverKind::Cvc5 => 1,
            ProverKind::Metamath | ProverKind::HolLight | ProverKind::Mizar => 2,
            ProverKind::Pvs | ProverKind::Acl2 | ProverKind::Hol4 => 3,
        }
    }

    /// The extension of the prover's source files, with its leading dot.
    pub fn extension(&self) -> (r: &'static str)
        ensures
            r@ == extension(*self),
    {
        match self {
            ProverKind::Coq => ".v",
            ProverKind::Lean => ".lean",
            ProverKind::Isabelle => ".thy",
            ProverKind::Agda => ".agda",
            ProverKind::Z3 => ".smt2",
            ProverKind::Cvc5 => ".smt2",
            ProverKind::Metamath => ".mm",
            ProverKind::HolLight => ".ml",
            ProverKind::Mizar => ".miz",
            ProverKind::Pvs => ".pvs",
            ProverKind::Acl2 => ".lisp",
            ProverKind::Hol4 => ".sml",
        }
    }

    /// The extensions of the prover's source files: never empty.
    pub fn file_extensions(&self) -> (r: Vec<&'static str>)
        ensures
            r@.len() == 1,
            r@[0]@ == extension(*self),
    {
        let mut r: Vec<&'static str> = Vec::new();
        r.push(self.extension());
        r
    }

    /// The prover that an extension stands for, with or without its dot and
    /// in any letter case.
    pub fn from_extension(ext: &str) -> (r: Option<ProverKind>)
        ensures
            r == kind_of_extension(ext@),
    {
        let chars = chars_of(ext);
        let mut start: usize = 0;
        assert(chars@.skip(0) =~= chars@);
        while start < chars.len() && chars[start] == '.'
            invariant
                start <= chars.len(),
                without_leading_dots(chars@) == without_leading_dots(chars@.skip(start as int)),
            decreases chars.len() - start,
        {
            proof {
                assert(chars@.skip(start as int).drop_first() =~= chars@.skip(start + 1));
            }
            start += 1;
        }
        proof {
            let rest = chars@.skip(start as int);
            assert(without_leading_dots(rest) == rest);
            assert(rest =~= chars@.subrange(start as int, chars.len() as int));
        }
        let bare = string_of_range(&chars, start, chars.len());
        let lower = bare.as_str().to_lowercase();
        let e = lower.as_str();
        if same_text(e, "v") {
            Some(ProverKind::Coq)
        } else if same_text(e, "lean") {
            Some(ProverKind::Lean)
        } else if same_text(e, "thy") {
            Some(ProverKind::Isabelle)
        } else if same_text(e, "agda") {
            Some(ProverKind::Agda)
        } else if same_text(e, "smt2") {
            Some(ProverKind::Z3)
        } else if same_text(e, "mm") {
            Some(ProverKind::Metamath)
        } else if same_text(e, "ml") {
            Some(ProverKind::HolLight)
        } else if same_text(e, "miz") {
            Some(ProverKind::Mizar)
        } else if same_text(e, "pvs") {
            Some(ProverKind::Pvs)
        } else if same_text(e, "lisp") {
            Some(ProverKind::Acl2)
        } else if same_text(e, "sml") {
            Some(ProverKind::Hol4)
        } else {
            None
        }
    }
}

/// Two recognised bare extensions that stand for the same prover are the
/// same extension: the conversion from extension to prover is injective.
pub proof fn law_extension_injective(e1: Seq<char>, e2: Seq<char>)
    requires
        kind_of_bare_extension(e1) is Some,
        kind_of_bare_extension(e1) == kind_of_bare_extension(e2),
    ensures
        e1 == e2,
{
}

/// A recognised bare extension is its prover's own extension without the
/// dot, except that `smt2`, which two provers share, resolves to Z3.
pub proof fn law_extension_table(e: Seq<char>)
    requires
        kind_of_bare_extension(e) is Some,
    ensures
        seq!['.'] + e == extension(kind_of_bare_extension(e).unwrap()),
{
    reveal_strlit("v");
    reveal_strlit(".v");
    reveal_strlit("lean");
    reveal_strlit(".lean");
    reveal_strlit("thy");
    reveal_strlit(".thy");
    reveal_strlit("agda");
    reveal_strlit(".agda");
    reveal_strlit("smt2");
    reveal_strlit(".smt2");
    reveal_strlit("mm");
    reveal_strlit(".mm");
    reveal_strlit("ml");
    reveal_strlit(".ml");
    reveal_strlit("miz");
    reveal_strlit(".miz");
    reveal_strlit("pvs");
    reveal_strlit(".pvs");
    reveal_strlit("lisp");
    reveal_strlit(".lisp");
    reveal_strlit("sml");
    reveal_strlit(".sml");
    assert(seq!['.'] + e =~= extension(kind_of_bare_extension(e).unwrap()));
}

} // verus!
