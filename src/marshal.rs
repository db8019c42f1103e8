use vstd::prelude::*;
use crate::error::{Error, ErrorKind, CLASS_INVALID};

verus! {

/// True when `s` holds a NUL byte, which a native string cannot carry.
pub open spec fn has_nul(s: Seq<u8>) -> bool {
    exists|i: int| 0 <= i < s.len() && s[i] == 0
}

/// The position of the first NUL byte of `s`, or its length if there is none.
pub open spec fn nul_position(s: Seq<u8>) -> nat
    decreases s.len(),
{
    if s.len() == 0 {
        0
    } else if s[0] == 0 {
        0
    } else {
        1 + nul_position(s.drop_first())
    }
}

/// The bytes of a native string held in `s`: those before its terminator.
pub open spec fn native_text(s: Seq<u8>) -> Seq<u8> {
    s.take(nul_position(s) as int)
}

proof fn lemma_nul_position(s: Seq<u8>)
    ensures
        nul_position(s) <= s.len(),
        forall|j: int| 0 <= j < nul_position(s) ==> s[j] != 0,
        nul_position(s) < s.len() ==> s[nul_position(s) as int] == 0,
    decreases s.len(),
{
    if s.len() > 0 && s[0] != 0 {
        lemma_nul_position(s.drop_first());
        assert forall|j: int| 0 <= j < nul_position(s) implies s[j] != 0 by {
            if j > 0 {
                assert(s[j] == s.drop_first()[j - 1]);
            }
        }
    }
}

proof fn lemma_nul_position_unique(s: Seq<u8>, k: int)
    requires
        0 <= k <= s.len(),
        forall|j: int| 0 <= j < k ==> s[j] != 0,
        k < s.len() ==> s[k] == 0,
    ensures
        nul_position(s) == k,
    decreases s.len(),
{
    if s.len() > 0 && s[0] != 0 {
        assert forall|j: int| 0 <= j < k - 1 implies s.drop_first()[j] != 0 by {
            assert(s[j + 1] != 0);
        }
        lemma_nul_position_unique(s.drop_first(), k - 1);
    }
}

/// Relies on libgit2_sys::init: sets the engine up once per process, under
/// a `std::sync::Once`, and does nothing on later calls. It panics only when
/// the engine's own global setup fails, which no argument can cause.
#[verifier::external_body]
fn engine_init() {
    libgit2_sys::init()
}

/// The NUL-terminated buffer that carries `s` into a native call. Strict
/// policy: a NUL inside `s` cannot be carried and is an encoding error.
pub fn to_native(s: &[u8]) -> (r: Result<Vec<u8>, Error>)
    ensures
        r is Ok <==> !has_nul(s@),
        r matches Ok(v) ==> v@ == s@.push(0),
        r matches Err(e) ==> e.kind == ErrorKind::Encoding,
{
    let mut out: Vec<u8> = Vec::new();
    let mut i: usize = 0;
    while i < s.len()
        invariant
            0 <= i <= s.len(),
            out@ == s@.take(i as int),
            forall|j: int| 0 <= j < i ==> s@[j] != 0,
        decreases s.len() - i,
    {
        if s[i] == 0 {
            return Err(Error::local(ErrorKind::Encoding, CLASS_INVALID, "path or string holds a NUL byte".to_string()));
        }
        out.push(s[i]);
        i = i + 1;
        assert(out@ == s@.take(i as int));
    }
    assert(s@.take(i as int) == s@);
    out.push(0);
    Ok(out)
}

/// Sets the engine up, then marshals `path` for a native call: the first
/// two steps of opening or creating a repository.
pub fn prepare_path(path: &[u8]) -> (r: Result<Vec<u8>, Error>)
    ensures
        r is Ok <==> !has_nul(path@),
        r matches Ok(v) ==> v@ == path@.push(0),
        r matches Err(e) ==> e.kind == ErrorKind::Encoding,
{
    engine_init();
    to_native(path)
}

/// Copies a native string out of the buffer `buf`, which holds it with its
/// terminator: the result is owned here and keeps nothing of the buffer.
pub fn from_native(buf: &[u8]) -> (r: Vec<u8>)
    ensures
        r@ == native_text(buf@),
        !has_nul(r@),
{
    proof { lemma_nul_position(buf@); }
    let mut out: Vec<u8> = Vec::new();
    let mut i: usize = 0;
    while i < buf.len() && buf[i] != 0
        invariant
            0 <= i <= buf.len(),
            out@ == buf@.take(i as int),
            forall|j: int| 0 <= j < i ==> buf@[j] != 0,
        decreases buf.len() - i,
    {
        out.push(buf[i]);
        i = i + 1;
        assert(out@ == buf@.take(i as int));
    }
    proof {
        lemma_nul_position_unique(buf@, i as int);
    }
    out
}

/// Marshalling a string into a native buffer and copying it back out
/// gives the string again.
pub proof fn lemma_native_round_trip(s: Seq<u8>)
    requires
        !has_nul(s),
    ensures
        native_text(s.push(0)) == s,
{
    let t = s.push(0);
    assert forall|j: int| 0 <= j < s.len() implies t[j] != 0 by {
        assert(t[j] == s[j]);
    }
    lemma_nul_position_unique(t, s.len() as int);
    assert(t.take(s.len() as int) == s);
}

} // verus!
