//! Storage namespace resolution with path-traversal sandboxing.
//!
//! Paths are byte strings with `/` as the separator. A payload lives at
//! `storage_root / base58(identity) / resource_name`; its commit signature
//! lives beside it with the extension replaced by `sig`. A resource name
//! whose normalized resolution would leave the identity's namespace
//! directory is rejected, never silently clamped; `..` segments that stay
//! inside it are allowed.
use vstd::prelude::*;

use crate::crypto;
use crate::num;
use crate::request::Identity;
use crate::TransferError;

verus! {

/// Path separator byte, `/`.
pub const SEPARATOR: u8 = 47;

/// Extension separator byte, `.`.
pub const PERIOD: u8 = 46;

/// Index of the first separator in `s`, or `s.len()` when there is none.
pub open spec fn first_sep(s: Seq<u8>) -> int
    decreases s.len(),
{
    if s.len() == 0 {
        0
    } else if s[0] == SEPARATOR {
        0
    } else {
        1 + first_sep(s.skip(1))
    }
}

pub proof fn lemma_first_sep(s: Seq<u8>)
    ensures
        0 <= first_sep(s) <= s.len(),
        first_sep(s) < s.len() ==> s[first_sep(s)] == SEPARATOR,
        forall|j: int| 0 <= j < first_sep(s) ==> s[j] != SEPARATOR,
    decreases s.len(),
{
    if s.len() > 0 && s[0] != SEPARATOR {
        let t = s.skip(1);
        lemma_first_sep(t);
        assert(forall|j: int| 0 <= j < t.len() ==> t[j] == s[j + 1]);
        assert forall|j: int| 0 <= j < first_sep(s) implies s[j] != SEPARATOR by {
            if j >= 1 {
                assert(t[j - 1] == s[j]);
                assert(t[j - 1] != SEPARATOR);
            }
        }
    }
}

/// Segment-wise normalization of a relative name: starting `depth` directory
/// levels below the namespace directory, a `..` segment pops one level, `.`
/// and empty segments change nothing, and any other segment descends one.
/// The name stays inside exactly when the level never drops below the
/// namespace directory itself.
pub open spec fn stays_inside(name: Seq<u8>, depth: int) -> bool
    decreases name.len(),
{
    if name.len() == 0 {
        true
    } else {
        let k = first_sep(name);
        let next_depth = if k == 2 && name[0] == PERIOD && name[1] == PERIOD {
            depth - 1
        } else if k == 0 || (k == 1 && name[0] == PERIOD) {
            depth
        } else {
            depth + 1
        };
        let step = if 1 <= k + 1 && k + 1 <= name.len() {
            k + 1
        } else {
            name.len() as int
        };
        next_depth >= 0 && stays_inside(name.skip(step), next_depth)
    }
}

/// A resource name stays inside its namespace directory: it is nonempty, not
/// absolute, and its normalized resolution never climbs above the namespace
/// directory (and so never out of the storage root).
pub open spec fn resource_name_ok(name: Seq<u8>) -> bool {
    &&& name.len() > 0
    &&& name[0] != SEPARATOR
    &&& stays_inside(name, 0)
}

/// A name that opens with a `..` segment climbs out of its namespace
/// directory at once and is never a valid resource name, for any identity and
/// any storage root.
pub proof fn lemma_traversal_rejected(name: Seq<u8>)
    requires
        name.len() >= 2,
        name[0] == PERIOD,
        name[1] == PERIOD,
        name.len() == 2 || name[2] == SEPARATOR,
    ensures
        !resource_name_ok(name),
{
    let s1 = name.skip(1);
    let s2 = name.skip(2);
    assert(s1.len() == name.len() - 1);
    assert(s2.len() == name.len() - 2);
    assert(s1[0] == name[1]);
    if name.len() > 2 {
        assert(s2[0] == name[2]);
    }
    assert(first_sep(s2) == 0);
    assert(s1.skip(1) =~= s2);
    assert(first_sep(s1) == 1);
    assert(first_sep(name) == 2);
    assert(!stays_inside(name, 0));
}

/// Where a payload for `identity` named `name` lives under `root`.
pub open spec fn payload_path_spec(root: Seq<u8>, identity: Seq<u8>, name: Seq<u8>) -> Seq<u8> {
    root + seq![SEPARATOR] + crypto::base58_of(identity) + seq![SEPARATOR] + name
}

/// Per-identity namespacing: identities whose encodings differ resolve into
/// disjoint subtrees under the same root — whatever the two resource names,
/// the payload paths differ, because no separator ever occurs inside an
/// encoded identity, so the namespace directory is unambiguous in the path.
pub proof fn lemma_distinct_namespaces(
    root: Seq<u8>,
    id1: Seq<u8>,
    id2: Seq<u8>,
    n1: Seq<u8>,
    n2: Seq<u8>,
)
    requires
        crypto::base58_of(id1) != crypto::base58_of(id2),
        forall|i: int|
            0 <= i < crypto::base58_of(id1).len() ==> #[trigger] crypto::base58_of(id1)[i]
                != SEPARATOR,
        forall|i: int|
            0 <= i < crypto::base58_of(id2).len() ==> #[trigger] crypto::base58_of(id2)[i]
                != SEPARATOR,
    ensures
        payload_path_spec(root, id1, n1) != payload_path_spec(root, id2, n2),
{
    let e1 = crypto::base58_of(id1);
    let e2 = crypto::base58_of(id2);
    let p1 = payload_path_spec(root, id1, n1);
    let p2 = payload_path_spec(root, id2, n2);
    let a = root.len() as int;
    let m1 = e1.len() as int;
    let m2 = e2.len() as int;
    if p1 == p2 {
        assert(p1[a + 1 + m1] == SEPARATOR);
        assert(p2[a + 1 + m2] == SEPARATOR);
        if m1 < m2 {
            assert(p2[a + 1 + m1] == e2[m1]);
            assert(false);
        }
        if m2 < m1 {
            assert(p1[a + 1 + m2] == e1[m2]);
            assert(false);
        }
        assert(e1 =~= e2) by {
            assert(forall|j: int|
                0 <= j < m1 ==> #[trigger] e1[j] == p1[a + 1 + j] && e2[j] == p2[a + 1 + j]);
        }
        assert(false);
    }
}

/// The largest index of `b` in `s`, or `-1` when absent.
pub open spec fn last_index_of(s: Seq<u8>, b: u8) -> int
    decreases s.len(),
{
    if s.len() == 0 {
        -1
    } else if s.last() == b {
        s.len() - 1
    } else {
        last_index_of(s.drop_last(), b)
    }
}

pub proof fn lemma_last_index_of(s: Seq<u8>, b: u8)
    ensures
        last_index_of(s, b) >= -1,
        last_index_of(s, b) == -1 ==> forall|j: int| 0 <= j < s.len() ==> s[j] != b,
        last_index_of(s, b) >= 0 ==> last_index_of(s, b) < s.len() && s[last_index_of(s, b)] == b
            && forall|j: int| last_index_of(s, b) < j < s.len() ==> s[j] != b,
    decreases s.len(),
{
    if s.len() > 0 && s.last() != b {
        let t = s.drop_last();
        lemma_last_index_of(t, b);
        assert(forall|j: int| 0 <= j < t.len() ==> t[j] == s[j]);
        assert(s[s.len() - 1] != b);
    }
}

/// The sibling path holding a payload's commit signature: the extension of
/// the final segment replaced by `sig` (appended when there is none).
pub open spec fn signature_path_spec(payload: Seq<u8>) -> Seq<u8> {
    let dot = last_index_of(payload, PERIOD);
    let sep = last_index_of(payload, SEPARATOR);
    let stem = if dot > sep + 1 {
        payload.take(dot)
    } else {
        payload
    };
    stem + seq![PERIOD, 115, 105, 103]
}

/// Finds the largest index of `b`, scanning from the end.
fn rfind(s: &[u8], b: u8) -> (r: Option<usize>)
    ensures
        match r {
            Some(i) => i == last_index_of(s@, b),
            None => last_index_of(s@, b) == -1,
        },
{
    proof {
        lemma_last_index_of(s@, b);
    }
    let mut i: usize = s.len();
    while i > 0
        invariant
            i <= s@.len(),
            forall|j: int| i <= j < s@.len() ==> s@[j] != b,
            last_index_of(s@, b) >= 0 ==> last_index_of(s@, b) < s@.len() && s@[last_index_of(
                s@,
                b,
            )] == b && forall|j: int| last_index_of(s@, b) < j < s@.len() ==> s@[j] != b,
            last_index_of(s@, b) == -1 ==> forall|j: int| 0 <= j < s@.len() ==> s@[j] != b,
            last_index_of(s@, b) >= -1,
        decreases i,
    {
        i = i - 1;
        if s[i] == b {
            proof {
                assert(last_index_of(s@, b) != -1);
                assert(i <= last_index_of(s@, b));
                assert(last_index_of(s@, b) == i);
            }
            return Some(i);
        }
    }
    None
}

/// Walks the name segment by segment, tracking the normalization depth.
fn name_stays_inside(name: &[u8], depth: usize) -> (r: bool)
    requires
        depth + name@.len() <= usize::MAX,
    ensures
        r == stays_inside(name@, depth as int),
    decreases name@.len(),
{
    if name.len() == 0 {
        return true;
    }
    proof {
        lemma_first_sep(name@);
    }
    let mut k: usize = 0;
    while k < name.len() && name[k] != SEPARATOR
        invariant
            k <= name@.len(),
            forall|j: int| 0 <= j < k ==> name@[j] != SEPARATOR,
        decreases name@.len() - k,
    {
        k = k + 1;
    }
    proof {
        if first_sep(name@) < k {
            assert(name@[first_sep(name@)] == SEPARATOR);
        }
        if first_sep(name@) > k {
            assert(name@[k as int] != SEPARATOR);
        }
        assert(k as int == first_sep(name@));
        assert(stays_inside(name@, depth as int) == ({
            let kk = first_sep(name@);
            let nd: int = if kk == 2 && name@[0] == PERIOD && name@[1] == PERIOD {
                depth - 1
            } else if kk == 0 || (kk == 1 && name@[0] == PERIOD) {
                depth as int
            } else {
                depth + 1
            };
            let step = if 1 <= kk + 1 && kk + 1 <= name@.len() {
                kk + 1
            } else {
                name@.len() as int
            };
            nd >= 0 && stays_inside(name@.skip(step), nd)
        }));
    }
    let next_depth: usize = if k == 2 && name[0] == PERIOD && name[1] == PERIOD {
        if depth == 0 {
            return false;
        }
        depth - 1
    } else if k == 0 || (k == 1 && name[0] == PERIOD) {
        depth
    } else {
        depth + 1
    };
    if k == name.len() {
        proof {
            assert(name@.skip(name@.len() as int) =~= Seq::<u8>::empty());
            assert(stays_inside(Seq::<u8>::empty(), next_depth as int));
        }
        true
    } else {
        proof {
            assert(name@.subrange(k + 1, name@.len() as int) =~= name@.skip(k + 1));
        }
        name_stays_inside(&name[k + 1..name.len()], next_depth)
    }
}

/// Whether `name` is acceptable as a resource name.
pub fn resource_name_allowed(name: &[u8]) -> (r: bool)
    ensures
        r == resource_name_ok(name@),
{
    if name.len() == 0 {
        return false;
    }
    if name[0] == SEPARATOR {
        return false;
    }
    name_stays_inside(name, 0)
}

/// Resolves where a payload and its commit signature live for `(identity,
/// filename)` under `storage_root`; rejects any resource name whose
/// normalized resolution would escape its namespace.
pub fn get_file_paths(storage_root: &[u8], pubkey: &Identity, filename: &[u8]) -> (r: Result<
    (Vec<u8>, Vec<u8>),
    TransferError,
>)
    ensures
        match r {
            Ok(paths) => resource_name_ok(filename@) && paths.0@ == payload_path_spec(
                storage_root@,
                pubkey@,
                filename@,
            ) && paths.1@ == signature_path_spec(paths.0@),
            Err(e) => e == TransferError::SandboxViolation && !resource_name_ok(filename@),
        },
{
    if !resource_name_allowed(filename) {
        return Err(TransferError::SandboxViolation);
    }
    let encoded = crypto::base58_encode(pubkey.as_bytes().as_slice());
    let mut payload: Vec<u8> = Vec::new();
    num::push_all(&mut payload, storage_root);
    payload.push(SEPARATOR);
    num::push_all(&mut payload, encoded.as_slice());
    payload.push(SEPARATOR);
    num::push_all(&mut payload, filename);
    proof {
        assert(payload@ =~= payload_path_spec(storage_root@, pubkey@, filename@));
    }
    proof {
        lemma_last_index_of(payload@, PERIOD);
        lemma_last_index_of(payload@, SEPARATOR);
    }
    let dot = rfind(payload.as_slice(), PERIOD);
    let sep = rfind(payload.as_slice(), SEPARATOR);
    let stem_len: usize = match (dot, sep) {
        (Some(d), Some(s)) => if d > s && d - s >= 2 {
            d
        } else {
            payload.len()
        },
        (Some(d), None) => if d > 0 {
            d
        } else {
            payload.len()
        },
        _ => payload.len(),
    };
    let mut signature: Vec<u8> = Vec::new();
    let mut i: usize = 0;
    while i < stem_len
        invariant
            stem_len <= payload@.len(),
            signature@ == payload@.take(i as int),
            i <= stem_len,
        decreases stem_len - i,
    {
        let ghost prev = signature@;
        signature.push(payload[i]);
        i = i + 1;
        proof {
            assert(signature@ =~= payload@.take(i as int));
        }
    }
    signature.push(PERIOD);
    signature.push(115);
    signature.push(105);
    signature.push(103);
    proof {
        let d = last_index_of(payload@, PERIOD);
        let sp = last_index_of(payload@, SEPARATOR);
        if d > sp + 1 {
            assert(stem_len as int == d);
            assert(signature@ =~= payload@.take(d) + seq![PERIOD, 115u8, 105u8, 103u8]);
        } else {
            assert(stem_len as int == payload@.len());
            assert(payload@.take(stem_len as int) =~= payload@);
            assert(signature@ =~= payload@ + seq![PERIOD, 115u8, 105u8, 103u8]);
        }
    }
    Ok((payload, signature))
}

} // verus!
