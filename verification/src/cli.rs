//! What the command line asks of the library: reading provers, platforms
//! and targets from text.

use crate::adapters::Platform;
use crate::api::webhooks::bitbucket_repo_key;
use crate::dispatcher::ProverKind;
use crate::error::Error;
use crate::ident::{parse_uuid, uuid_value};
use crate::scheduler::JobId;
use crate::text::{chars_of, concat2, lowercase, same_text, string_of_range};
use vstd::prelude::*;

verus! {

/// A text without the white space at its ends, as the standard library
/// trims it.
pub uninterp spec fn trimmed(s: Seq<char>) -> Seq<char>;

/// `str::trim` of the standard library. Its result depends on the text
/// alone; the contract gives it the name `trimmed`.
pub assume_specification<'a>[ str::trim ](s: &'a str) -> (r: &'a str)
    ensures
        r@ == trimmed(s@),
;

/// What the `status` command is asked about.
#[derive(Debug)]
pub enum StatusTarget {
    Job(JobId),
    Repository { owner: String, name: String },
}

/// The prover that a name stands for, given the name in lower case.
pub open spec fn prover_named(lower: Seq<char>) -> Option<ProverKind> {
    if lower == "agda"@ {
        Some(ProverKind::Agda)
    } else if lower == "coq"@ {
        Some(ProverKind::Coq)
    } else if lower == "lean"@ {
        Some(ProverKind::Lean)
    } else if lower == "isabelle"@ {
        Some(ProverKind::Isabelle)
    } else if lower == "z3"@ {
        Some(ProverKind::Z3)
    } else if lower == "cvc5"@ {
        Some(ProverKind::Cvc5)
    } else if lower == "metamath"@ || lower == "mm"@ {
        Some(ProverKind::Metamath)
    } else if lower == "hol-light"@ || lower == "hollight"@ {
        Some(ProverKind::HolLight)
    } else if lower == "mizar"@ {
        Some(ProverKind::Mizar)
    } else if lower == "pvs"@ {
        Some(ProverKind::Pvs)
    } else if lower == "acl2"@ {
        Some(ProverKind::Acl2)
    } else if lower == "hol4"@ {
        Some(ProverKind::Hol4)
    } else {
        None
    }
}

/// The platform that a name stands for, given the name in lower case.
pub open spec fn platform_named(lower: Seq<char>) -> Option<Platform> {
    if lower == "github"@ {
        Some(Platform::GitHub)
    } else if lower == "gitlab"@ {
        Some(Platform::GitLab)
    } else if lower == "bitbucket"@ {
        Some(Platform::Bitbucket)
    } else if lower == "codeberg"@ {
        Some(Platform::Codeberg)
    } else {
        None
    }
}

/// The parts of a text between the separators, in order. A text without a
/// separator has one part, itself.
pub open spec fn split_text(s: Seq<char>, sep: char) -> Seq<Seq<char>>
    decreases s.len(),
{
    if s.len() == 0 {
        seq![Seq::empty()]
    } else {
        let front = split_text(s.drop_last(), sep);
        if s.last() == sep {
            front.push(Seq::empty())
        } else {
            front.drop_last().push(front.last().push(s.last()))
        }
    }
}

/// The provers that the parts name, in order; parts that name none are
/// passed over.
pub open spec fn provers_named(parts: Seq<Seq<char>>) -> Seq<ProverKind>
    decreases parts.len(),
{
    if parts.len() == 0 {
        Seq::empty()
    } else {
        let front = provers_named(parts.drop_last());
        match prover_named(lowercase(trimmed(parts.last()))) {
            Some(p) => front.push(p),
            None => front,
        }
    }
}

/// The prover that a name stands for, in any letter case.
pub fn parse_prover(s: &str) -> (r: Option<ProverKind>)
    ensures
        r == prover_named(lowercase(s@)),
{
    let lower = s.to_lowercase();
    let l = lower.as_str();
    if same_text(l, "agda") {
        Some(ProverKind::Agda)
    } else if same_text(l, "coq") {
        Some(ProverKind::Coq)
    } else if same_text(l, "lean") {
        Some(ProverKind::Lean)
    } else if same_text(l, "isabelle") {
        Some(ProverKind::Isabelle)
    } else if same_text(l, "z3") {
        Some(ProverKind::Z3)
    } else if same_text(l, "cvc5") {
        Some(ProverKind::Cvc5)
    } else if same_text(l, "metamath") || same_text(l, "mm") {
        Some(ProverKind::Metamath)
    } else if same_text(l, "hol-light") || same_text(l, "hollight") {
        Some(ProverKind::HolLight)
    } else if same_text(l, "mizar") {
        Some(ProverKind::Mizar)
    } else if same_text(l, "pvs") {
        Some(ProverKind::Pvs)
    } else if same_text(l, "acl2") {
        Some(ProverKind::Acl2)
    } else if same_text(l, "hol4") {
        Some(ProverKind::Hol4)
    } else {
        None
    }
}

/// The platform that a name stands for, in any letter case.
pub fn find_platform(s: &str) -> (r: Option<Platform>)
    ensures
        r == platform_named(lowercase(s@)),
{
    let lower = s.to_lowercase();
    let l = lower.as_str();
    if same_text(l, "github") {
        Some(Platform::GitHub)
    } else if same_text(l, "gitlab") {
        Some(Platform::GitLab)
    } else if same_text(l, "bitbucket") {
        Some(Platform::Bitbucket)
    } else if same_text(l, "codeberg") {
        Some(Platform::Codeberg)
    } else {
        None
    }
}

/// The platform that a name stands for; an unknown name is a
/// configuration error that quotes it.
pub fn parse_platform(s: &str) -> (r: Result<Platform, Error>)
    ensures
        match platform_named(lowercase(s@)) {
            Some(p) => r == Ok::<Platform, Error>(p),
            None => r is Err && r->Err_0 is Config && r->Err_0.text() == "Unknown platform: "@
                + s@,
        },
{
    match find_platform(s) {
        Some(p) => Ok(p),
        None => Err(Error::Config(concat2("Unknown platform: ", s))),
    }
}

/// The platform by which a list is filtered: GitHub where the name is
/// unknown.
pub fn platform_filter(s: &str) -> (r: Platform)
    ensures
        r == match platform_named(lowercase(s@)) {
            Some(p) => p,
            None => Platform::GitHub,
        },
{
    match find_platform(s) {
        Some(p) => p,
        None => Platform::GitHub,
    }
}

/// The name of a platform in addresses.
pub fn platform_slug(platform: Platform) -> (r: &'static str)
    ensures
        r@ == match platform {
            Platform::GitHub => "github"@,
            Platform::GitLab => "gitlab"@,
            Platform::Bitbucket => "bitbucket"@,
            Platform::Codeberg => "codeberg"@,
        },
        platform_named(r@) == Some(platform),
{
    proof {
        reveal_strlit("github");
        reveal_strlit("gitlab");
        reveal_strlit("bitbucket");
        reveal_strlit("codeberg");
        assert("github"@[3] == 'h' && "gitlab"@[3] == 'l');
        assert("bitbucket"@.len() == 9 && "codeberg"@.len() == 8);
    }
    match platform {
        Platform::GitHub => "github",
        Platform::GitLab => "gitlab",
        Platform::Bitbucket => "bitbucket",
        Platform::Codeberg => "codeberg",
    }
}

/// Owner and name of a repository given as `owner/name`. A text with no
/// slash or with more than one is a configuration error.
pub fn parse_repo_arg(repo: &str) -> (r: Result<(String, String), Error>)
    ensures
        r is Ok ==> {
            let (owner, name) = r->Ok_0;
            &&& !owner@.contains('/')
            &&& !name@.contains('/')
            &&& repo@ == owner@ + seq!['/'] + name@
        },
        r is Err ==> r->Err_0 is Config && r->Err_0.text()
            == "Repository must be in format owner/name"@ && forall|owner: Seq<char>, name: Seq<char>|
            !(!owner.contains('/') && !name.contains('/') && repo@ == #[trigger] (owner + seq![
                '/',
            ] + name)),
{
    match bitbucket_repo_key(repo) {
        Some(key) => Ok(key),
        None => Err(Error::Config("Repository must be in format owner/name".to_owned())),
    }
}

/// The parts of a text between the separators.
pub fn split(s: &str, sep: char) -> (r: Vec<String>)
    ensures
        crate::text::texts(r@) == split_text(s@, sep),
{
    let chars = chars_of(s);
    let mut parts: Vec<String> = Vec::new();
    let mut start: usize = 0;
    let mut i: usize = 0;
    proof {
        assert(chars@.take(0) =~= Seq::<char>::empty());
        assert(crate::text::texts(parts@).push(chars@.subrange(0, 0)) =~= seq![
            Seq::<char>::empty(),
        ]);
    }
    while i < chars.len()
        invariant
            start <= i <= chars.len(),
            crate::text::texts(parts@).push(chars@.subrange(start as int, i as int)) == split_text(
                chars@.take(i as int),
                sep,
            ),
        decreases chars.len() - i,
    {
        let ghost done = crate::text::texts(parts@);
        let ghost current = chars@.subrange(start as int, i as int);
        proof {
            assert(chars@.take(i + 1).drop_last() =~= chars@.take(i as int));
            assert(chars@.take(i + 1).last() == chars@[i as int]);
            assert(done.push(current).drop_last() =~= done);
        }
        if chars[i] == sep {
            let part = string_of_range(&chars, start, i);
            parts.push(part);
            start = i + 1;
            proof {
                assert(crate::text::texts(parts@) =~= done.push(current));
                assert(chars@.subrange(start as int, i + 1) =~= Seq::<char>::empty());
            }
        } else {
            proof {
                assert(chars@.subrange(start as int, i + 1) =~= current.push(chars@[i as int]));
            }
        }
        i += 1;
    }
    let ghost done = crate::text::texts(parts@);
    let last = string_of_range(&chars, start, chars.len());
    parts.push(last);
    proof {
        assert(chars@.take(chars.len() as int) =~= chars@);
        assert(crate::text::texts(parts@) =~= done.push(chars@.subrange(start as int, chars.len() as int)));
    }
    parts
}

/// The provers that a comma-separated list names. White space around the
/// names is ignored and unknown names are passed over; a list that names
/// no prover at all is a configuration error.
pub fn parse_prover_list(provers: &str) -> (r: Result<Vec<ProverKind>, Error>)
    ensures
        ({
            let named = provers_named(split_text(provers@, ','));
            &&& r is Ok <==> named.len() > 0
            &&& r is Ok ==> r->Ok_0@ == named
            &&& r is Err ==> r->Err_0 is Config && r->Err_0.text()
                == "No valid provers specified"@
        }),
{
    let parts = split(provers, ',');
    let ghost all = crate::text::texts(parts@);
    let mut found: Vec<ProverKind> = Vec::new();
    let mut i: usize = 0;
    assert(all.take(0) =~= Seq::empty());
    while i < parts.len()
        invariant
            i <= parts.len(),
            all == crate::text::texts(parts@),
            found@ == provers_named(all.take(i as int)),
        decreases parts.len() - i,
    {
        proof {
            assert(all.take(i + 1).drop_last() =~= all.take(i as int));
            assert(all.take(i + 1).last() == parts@[i as int]@);
        }
        match parse_prover(parts[i].as_str().trim()) {
            Some(p) => {
                found.push(p);
            },
            None => {},
        }
        i += 1;
    }
    assert(all.take(parts@.len() as int) =~= all);
    if found.len() == 0 {
        Err(Error::Config("No valid provers specified".to_owned()))
    } else {
        Ok(found)
    }
}

/// What a `status` command is asked about: a job where the text is a
/// UUID, else a repository where it is `owner/name`, else nothing.
pub fn parse_status_target(target: &str) -> (r: Result<StatusTarget, Error>)
    ensures
        uuid_value(target@) is Some ==> r is Ok && r->Ok_0 is Job && r->Ok_0->Job_0 == JobId(
            uuid_value(target@)->0,
        ),
        uuid_value(target@) is None && r is Ok ==> r->Ok_0 is Repository && target@
            == r->Ok_0->owner@ + seq!['/'] + r->Ok_0->name@ && !r->Ok_0->owner@.contains('/')
            && !r->Ok_0->name@.contains('/'),
        r is Err ==> uuid_value(target@) is None && r->Err_0 is Config && r->Err_0.text()
            == "Target must be a job ID (UUID) or repository (owner/name)"@ && forall|
            owner: Seq<char>,
            name: Seq<char>,
        |
            !(!owner.contains('/') && !name.contains('/') && target@ == #[trigger] (owner + seq![
                '/',
            ] + name)),
{
    if let Some(id) = parse_uuid(target) {
        return Ok(StatusTarget::Job(JobId(id)));
    }
    match bitbucket_repo_key(target) {
        Some((owner, name)) => Ok(StatusTarget::Repository { owner, name }),
        None => Err(
            Error::Config("Target must be a job ID (UUID) or repository (owner/name)".to_owned()),
        ),
    }
}

/// The word that the health endpoint answers with.
pub fn health_text(store_ok: bool) -> (r: &'static str)
    ensures
        r@ == if store_ok {
            "OK"@
        } else {
            "DEGRADED"@
        },
{
    if store_ok {
        "OK"
    } else {
        "DEGRADED"
    }
}

} // verus!
