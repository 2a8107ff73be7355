//! Interface names as the kernel stores them: a fixed buffer of `IFNAMSIZ`
//! bytes holding the name's UTF-8 bytes followed by a terminating NUL.
use vstd::prelude::*;
use vstd::utf8::*;
use vstd::string::StringSliceAdditionalSpecFns;

verus! {

broadcast use vstd::string::group_string_axioms;

/// Size in bytes of a kernel interface-name buffer, terminating NUL included.
pub const IFNAMSIZ: usize = 16;

/// The name field of the kernel's interface request structures.
pub type IfName = [u8; IFNAMSIZ];

/// Why a name could not be stored in, or read back from, a name buffer.
#[derive(Debug, Clone, Copy, PartialEq, Eq, Structural)]
pub enum IfNameError {
    /// The name holds a NUL byte, or the buffer holds no terminating NUL,
    /// or the bytes before the NUL are not UTF-8.
    Malformed,
    /// The name with its terminating NUL needs `len` bytes; the buffer holds `max`.
    TooLong { len: usize, max: usize },
}

/// Whether `bytes` holds a zero byte.
pub open spec fn has_nul(bytes: Seq<u8>) -> bool {
    exists|i: int| 0 <= i < bytes.len() && bytes[i] == 0
}

/// Whether `k` is the position of the first zero byte of `bytes`.
pub open spec fn is_first_nul(bytes: Seq<u8>, k: int) -> bool {
    &&& 0 <= k < bytes.len()
    &&& bytes[k] == 0
    &&& forall|j: int| 0 <= j < k ==> bytes[j] != 0
}

/// Position of the first zero byte (meaningful when `has_nul(bytes)`).
pub open spec fn first_nul(bytes: Seq<u8>) -> int {
    choose|k: int| is_first_nul(bytes, k)
}

/// The outcome of storing a name whose UTF-8 bytes are `name`.
pub open spec fn set_name_outcome(name: Seq<u8>) -> Result<(), IfNameError> {
    if has_nul(name) {
        Err(IfNameError::Malformed)
    } else if name.len() + 1 > IFNAMSIZ {
        Err(
            IfNameError::TooLong {
                len: (if name.len() + 1 > usize::MAX { usize::MAX as int } else { name.len()
                    + 1int }) as usize,
                max: IFNAMSIZ,
            },
        )
    } else {
        Ok(())
    }
}

/// The buffer `old` after storing the name bytes `name` (with its NUL) at its start.
pub open spec fn stored_name(old: Seq<u8>, name: Seq<u8>) -> Seq<u8> {
    name.push(0u8) + old.skip(name.len() + 1int)
}

/// The text that a name buffer holds: the UTF-8 decoding of the bytes before
/// its first NUL, or `None` where there is no NUL or those bytes are not UTF-8.
pub open spec fn name_text(buf: Seq<u8>) -> Option<Seq<char>> {
    if has_nul(buf) && valid_utf8(buf.take(first_nul(buf))) {
        Some(decode_utf8(buf.take(first_nul(buf))))
    } else {
        None
    }
}

/// Whether a name whose text is `name` can be stored in a name buffer.
pub open spec fn name_fits(name: Seq<char>) -> bool {
    set_name_outcome(encode_utf8(name)) is Ok
}

/// The first zero byte is unique.
pub proof fn lemma_first_nul(bytes: Seq<u8>, k: int)
    requires
        is_first_nul(bytes, k),
    ensures
        has_nul(bytes),
        first_nul(bytes) == k,
{
    let c = first_nul(bytes);
    assert(is_first_nul(bytes, c));
    if c < k {
        assert(bytes[c] != 0);
    } else if k < c {
        assert(bytes[k] != 0);
    }
}

/// Returns whether the slice holds a zero byte.
pub fn contains_nul(bytes: &[u8]) -> (r: bool)
    ensures
        r == has_nul(bytes@),
{
    let mut i: usize = 0;
    while i < bytes.len()
        invariant
            i <= bytes@.len(),
            forall|j: int| 0 <= j < i ==> bytes@[j] != 0,
        decreases bytes@.len() - i,
    {
        if bytes[i] == 0 {
            return true;
        }
        i = i + 1;
    }
    false
}

/// `String::from_utf8`: the text that `bytes` encode in UTF-8, or `None` where
/// they are not UTF-8. The contract states that the std function succeeds
/// exactly on valid UTF-8 and that the string it returns decodes those bytes.
#[verifier::external_body]
fn utf8_to_string(bytes: Vec<u8>) -> (r: Option<String>)
    ensures
        r is Some <==> valid_utf8(bytes@),
        r matches Some(s) ==> s@ == decode_utf8(bytes@),
{
    match String::from_utf8(bytes) {
        Ok(s) => Some(s),
        Err(_) => None,
    }
}

/// Stores `name` with its terminating NUL at the start of `field`.
/// The bytes after the NUL are left as they were. On error nothing changes.
pub fn set_name(field: &mut IfName, name: &str) -> (r: Result<(), IfNameError>)
    ensures
        r == set_name_outcome(name.spec_bytes()),
        r is Ok ==> final(field)@ == stored_name(old(field)@, name.spec_bytes()),
        r is Err ==> *final(field) == *old(field),
{
    let bytes = name.as_bytes();
    if contains_nul(bytes) {
        return Err(IfNameError::Malformed);
    }
    let n = bytes.len();
    if n >= IFNAMSIZ {
        return Err(IfNameError::TooLong { len: n.saturating_add(1), max: IFNAMSIZ });
    }
    let ghost before = field@;
    let mut i: usize = 0;
    while i < n
        invariant
            n == bytes@.len(),
            n < IFNAMSIZ,
            i <= n,
            field@.len() == IFNAMSIZ,
            forall|j: int| 0 <= j < i ==> field@[j] == bytes@[j],
            forall|j: int| i <= j < IFNAMSIZ ==> field@[j] == before[j],
        decreases n - i,
    {
        field[i] = bytes[i];
        i = i + 1;
    }
    field[n] = 0u8;
    assert(field@ =~= stored_name(before, bytes@));
    Ok(())
}

/// Reads the name held in `buf`: the bytes before the first NUL, decoded as UTF-8.
pub fn get_name_from(buf: &[u8]) -> (r: Result<String, IfNameError>)
    ensures
        r is Ok <==> name_text(buf@) is Some,
        r matches Ok(s) ==> name_text(buf@) == Some(s@),
        r matches Err(e) ==> e == IfNameError::Malformed,
{
    let n = buf.len();
    let mut k: usize = 0;
    while k < n && buf[k] != 0
        invariant
            k <= n,
            n == buf@.len(),
            forall|j: int| 0 <= j < k ==> buf@[j] != 0,
        decreases n - k,
    {
        k = k + 1;
    }
    if k == n {
        return Err(IfNameError::Malformed);
    }
    proof {
        lemma_first_nul(buf@, k as int);
    }
    let mut prefix: Vec<u8> = Vec::new();
    let mut i: usize = 0;
    while i < k
        invariant
            k < n,
            n == buf@.len(),
            i <= k,
            prefix@ =~= buf@.take(i as int),
        decreases k - i,
    {
        prefix.push(buf[i]);
        i = i + 1;
    }
    match utf8_to_string(prefix) {
        Some(s) => Ok(s),
        None => Err(IfNameError::Malformed),
    }
}

/// Reads the name held in `field`.
pub fn get_name(field: &IfName) -> (r: Result<String, IfNameError>)
    ensures
        r is Ok <==> name_text(field@) is Some,
        r matches Ok(s) ==> name_text(field@) == Some(s@),
        r matches Err(e) ==> e == IfNameError::Malformed,
{
    get_name_from(field.as_slice())
}

/// A zeroed name buffer holding `name`: the request structures' `from_name`.
pub fn name_from_str(name: &str) -> (r: Result<IfName, IfNameError>)
    ensures
        r is Ok <==> set_name_outcome(name.spec_bytes()) is Ok,
        r matches Err(e) ==> Err::<(), IfNameError>(e) == set_name_outcome(name.spec_bytes()),
        r matches Ok(buf) ==> buf@ == stored_name(Seq::new(IFNAMSIZ as nat, |i: int| 0u8), name.spec_bytes()),
        r matches Err(e) ==> set_name_outcome(name.spec_bytes()) == Err::<(), IfNameError>(e),
{
    let mut buf: IfName = [0u8; IFNAMSIZ];
    assert(buf@ =~= Seq::new(IFNAMSIZ as nat, |i: int| 0u8));
    match set_name(&mut buf, name) {
        Ok(()) => Ok(buf),
        Err(e) => Err(e),
    }
}

/// Storing a name and reading it back gives the name again, for every name
/// that fits (no NUL inside, and room for the terminating NUL).
pub proof fn lemma_name_round_trip(old: Seq<u8>, name: Seq<char>)
    requires
        old.len() == IFNAMSIZ,
        name_fits(name),
    ensures
        name_text(stored_name(old, encode_utf8(name))) == Some(name),
{
    let b = encode_utf8(name);
    let s = stored_name(old, b);
    assert(!has_nul(b));
    assert(s.len() == IFNAMSIZ);
    assert(s[b.len() as int] == 0);
    assert forall|j: int| 0 <= j < b.len() implies s[j] != 0 by {
        assert(s[j] == b[j]);
        if b[j] == 0 {
            assert(has_nul(b));
        }
    }
    lemma_first_nul(s, b.len() as int);
    assert(s.take(b.len() as int) =~= b);
    encode_utf8_valid_utf8(name);
    encode_utf8_decode_utf8(name);
}

/// `n` in decimal digits.
pub open spec fn decimal(n: nat) -> Seq<char>
    decreases n,
{
    if n < 10 {
        seq![(48 + n) as char]
    } else {
        decimal(n / 10).push((48 + n % 10) as char)
    }
}

/// The decimal digit `d`.
fn digit_text(d: usize) -> (r: &'static str)
    requires
        d < 10,
    ensures
        r@ == seq![(48 + d) as char],
{
    proof {
        reveal_strlit("0");
        reveal_strlit("1");
        reveal_strlit("2");
        reveal_strlit("3");
        reveal_strlit("4");
        reveal_strlit("5");
        reveal_strlit("6");
        reveal_strlit("7");
        reveal_strlit("8");
        reveal_strlit("9");
    }
    if d == 0 {
        "0"
    } else if d == 1 {
        "1"
    } else if d == 2 {
        "2"
    } else if d == 3 {
        "3"
    } else if d == 4 {
        "4"
    } else if d == 5 {
        "5"
    } else if d == 6 {
        "6"
    } else if d == 7 {
        "7"
    } else if d == 8 {
        "8"
    } else {
        "9"
    }
}

/// The decimal digits of `n`, as `Display` writes an integer.
pub(crate) fn decimal_string(n: usize) -> (r: String)
    ensures
        r@ == decimal(n as nat),
    decreases n,
{
    let mut s = if n < 10 {
        String::new()
    } else {
        decimal_string(n / 10)
    };
    s.append(digit_text(n % 10));
    s
}

} // verus!
