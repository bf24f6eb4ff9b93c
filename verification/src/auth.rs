//! The display-credential bridge: derives a scoped, container-private
//! display credential from the host's credential entries.
//!
//! The confined process gets exactly one entry — the one bound to the
//! host's current display, with its family/type tag rewritten to the
//! wildcard-compatible form `ffff` — and never any other host entry.  A
//! missing display identifier or a failed extraction aborts container
//! construction before any mount work begins.

use vstd::prelude::*;

verus! {

/// One entry of the host's display-credential store, in its serialized
/// text form: the display it is bound to, and the entry line itself, whose
/// first four characters are the hexadecimal family/type tag.
#[derive(Debug)]
pub struct AuthEntry {
    pub display: String,
    pub data: String,
}

/// An entry line with its family/type tag rewritten to the
/// wildcard-compatible form; a line too short to carry a tag is kept as it
/// is.
pub open spec fn spec_wildcard(line: Seq<char>) -> Seq<char> {
    if line.len() >= 4 {
        "ffff"@ + line.skip(4)
    } else {
        line
    }
}

/// The scoped credential derived from the host's entries: the first entry
/// bound to `d`, with its tag wildcarded; `None` when no entry matches.
pub open spec fn spec_scoped(entries: Seq<AuthEntry>, d: Seq<char>) -> Option<Seq<char>>
    decreases entries.len(),
{
    if entries.len() == 0 {
        None
    } else if entries.first().display@ == d {
        Some(spec_wildcard(entries.first().data@))
    } else {
        spec_scoped(entries.drop_first(), d)
    }
}

/// Character-by-character string comparison.
fn str_eq(a: &str, b: &str) -> (r: bool)
    ensures
        r == (a@ == b@),
{
    let n = a.unicode_len();
    let m = b.unicode_len();
    if n != m {
        return false;
    }
    let mut i: usize = 0;
    while i < n
        invariant
            i <= n,
            n == a@.len(),
            n == b@.len(),
            forall|k: int| 0 <= k < i ==> a@[k] == b@[k],
        decreases n - i,
    {
        if a.get_char(i) != b.get_char(i) {
            return false;
        }
        i = i + 1;
    }
    proof {
        assert(a@ =~= b@);
    }
    true
}

/// Rewrites the family/type tag of one entry line to the
/// wildcard-compatible form.
pub fn wildcard_tag(line: &str) -> (r: String)
    ensures
        r@ == spec_wildcard(line@),
{
    let n = line.unicode_len();
    if n >= 4 {
        let rest = line.substring_char(4, n);
        let r = String::from_str("ffff").concat(rest);
        proof {
            assert(line@.subrange(4, n as int) =~= line@.skip(4));
        }
        r
    } else {
        String::from_str(line)
    }
}

/// Derives the scoped credential: the first host entry bound to the given
/// display, with its tag wildcarded; `None` when no entry is bound to it.
pub fn scoped_credential(entries: &Vec<AuthEntry>, display: &str) -> (r: Option<String>)
    ensures
        match r {
            Some(s) => spec_scoped(entries@, display@) == Some(s@),
            None => spec_scoped(entries@, display@) is None,
        },
{
    let n = entries.len();
    let mut i: usize = 0;
    proof {
        assert(entries@.skip(0) =~= entries@);
    }
    while i < n
        invariant
            i <= n,
            n == entries@.len(),
            spec_scoped(entries@, display@) == spec_scoped(entries@.skip(i as int), display@),
        decreases n - i,
    {
        proof {
            assert(entries@.skip(i as int).first() == entries@[i as int]);
            assert(entries@.skip(i as int).drop_first() =~= entries@.skip(i as int + 1));
        }
        if str_eq(entries[i].display.as_str(), display) {
            return Some(wildcard_tag(entries[i].data.as_str()));
        }
        i = i + 1;
    }
    proof {
        assert(entries@.skip(n as int) =~= Seq::<AuthEntry>::empty());
    }
    None
}

/// Credential scoping: a scoped credential exists exactly when some host
/// entry is bound to the display, and what it holds is one single entry,
/// derived from an entry bound to that display — never from any other host
/// entry.
pub proof fn lemma_credential_scoping(entries: Seq<AuthEntry>, d: Seq<char>)
    ensures
        (spec_scoped(entries, d) is Some) <==> (exists|i: int|
            0 <= i < entries.len() && entries[i].display@ == d),
        spec_scoped(entries, d) matches Some(line) ==> exists|i: int|
            0 <= i < entries.len() && entries[i].display@ == d && line == spec_wildcard(
                entries[i].data@,
            ),
    decreases entries.len(),
{
    if entries.len() == 0 {
    } else if entries.first().display@ == d {
        assert(entries[0].display@ == d);
    } else {
        lemma_credential_scoping(entries.drop_first(), d);
        let rest = entries.drop_first();
        if spec_scoped(entries, d) is Some {
            let j = choose|j: int| 0 <= j < rest.len() && rest[j].display@ == d;
            assert(entries[j + 1].display@ == d);
            match spec_scoped(entries, d) {
                Some(line) => {
                    let k = choose|k: int|
                        0 <= k < rest.len() && rest[k].display@ == d && line == spec_wildcard(
                            rest[k].data@,
                        );
                    assert(entries[k + 1].display@ == d && line == spec_wildcard(
                        entries[k + 1].data@,
                    ));
                },
                None => {},
            }
        }
        if exists|i: int| 0 <= i < entries.len() && entries[i].display@ == d {
            let i = choose|i: int| 0 <= i < entries.len() && entries[i].display@ == d;
            assert(i >= 1 && rest[i - 1].display@ == d);
        }
    }
}

} // verus!
