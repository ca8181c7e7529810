use vstd::prelude::*;
use vstd::string::StringSliceAdditionalSpecFns;

verus! {

/// A byte that may appear in a token name: an ASCII digit or lowercase letter.
pub open spec fn is_name_byte(b: u8) -> bool {
    (48 <= b && b <= 57) || (97 <= b && b <= 122)
}

/// A token name is made of name bytes only.
pub open spec fn valid_name(s: Seq<u8>) -> bool {
    forall|i: int| 0 <= i < s.len() ==> is_name_byte(#[trigger] s[i])
}

/// ASCII lowercasing of one byte; every other byte is kept.
pub open spec fn lower_byte(b: u8) -> u8 {
    if 65 <= b && b <= 90 {
        (b + 32) as u8
    } else {
        b
    }
}

/// ASCII lowercasing of a byte string.
pub open spec fn lower_bytes(s: Seq<u8>) -> Seq<u8> {
    Seq::new(s.len(), |i: int| lower_byte(s[i]))
}

/// The account identifier of a child: `name`, a dot, then the parent's identifier.
pub open spec fn child_of(name: Seq<u8>, parent: Seq<u8>) -> Seq<u8> {
    name + seq![46u8] + parent
}

/// Whether every byte of `token_id` is an ASCII digit or lowercase letter.
pub fn is_valid_token_id(token_id: &str) -> (r: bool)
    ensures
        r == valid_name(token_id.spec_bytes()),
{
    is_valid_name(token_id.as_bytes())
}

/// Whether every byte of `name` is an ASCII digit or lowercase letter.
pub fn is_valid_name(name: &[u8]) -> (r: bool)
    ensures
        r == valid_name(name@),
{
    let mut i: usize = 0;
    while i < name.len()
        invariant
            0 <= i <= name@.len(),
            forall|j: int| 0 <= j < i ==> is_name_byte(#[trigger] name@[j]),
        decreases name@.len() - i,
    {
        let c = name[i];
        if !((48 <= c && c <= 57) || (97 <= c && c <= 122)) {
            return false;
        }
        i = i + 1;
    }
    true
}

/// The bytes of `s`, with ASCII uppercase letters turned into lowercase.
pub fn ascii_lowercase(s: &str) -> (r: Vec<u8>)
    ensures
        r@ == lower_bytes(s.spec_bytes()),
{
    let bytes = s.as_bytes();
    let mut out: Vec<u8> = Vec::new();
    let mut i: usize = 0;
    while i < bytes.len()
        invariant
            bytes@ == s.spec_bytes(),
            0 <= i <= bytes@.len(),
            out@ == lower_bytes(bytes@.subrange(0, i as int)),
        decreases bytes@.len() - i,
    {
        let c = bytes[i];
        let l: u8 = if 65 <= c && c <= 90 {
            c + 32
        } else {
            c
        };
        out.push(l);
        i = i + 1;
        assert(out@ =~= lower_bytes(bytes@.subrange(0, i as int)));
    }
    assert(bytes@.subrange(0, bytes@.len() as int) =~= bytes@);
    out
}

/// The bytes of `s`.
pub fn bytes_of(s: &str) -> (r: Vec<u8>)
    ensures
        r@ == s.spec_bytes(),
{
    let bytes = s.as_bytes();
    let mut out: Vec<u8> = Vec::new();
    let mut i: usize = 0;
    while i < bytes.len()
        invariant
            bytes@ == s.spec_bytes(),
            0 <= i <= bytes@.len(),
            out@ == bytes@.subrange(0, i as int),
        decreases bytes@.len() - i,
    {
        out.push(bytes[i]);
        i = i + 1;
        assert(out@ =~= bytes@.subrange(0, i as int));
    }
    assert(bytes@.subrange(0, bytes@.len() as int) =~= bytes@);
    out
}

/// Whether two byte strings are equal.
pub fn bytes_equal(a: &Vec<u8>, b: &Vec<u8>) -> (r: bool)
    ensures
        r == (a@ == b@),
{
    if a.len() != b.len() {
        return false;
    }
    let mut i: usize = 0;
    while i < a.len()
        invariant
            a@.len() == b@.len(),
            0 <= i <= a@.len(),
            forall|j: int| 0 <= j < i ==> a@[j] == b@[j],
        decreases a@.len() - i,
    {
        if a[i] != b[i] {
            return false;
        }
        i = i + 1;
    }
    assert(a@ =~= b@);
    true
}

/// The identifier of the child account for token `name` under `parent`.
pub fn child_account_id(name: &Vec<u8>, parent: &str) -> (r: Vec<u8>)
    ensures
        r@ == child_of(name@, parent.spec_bytes()),
{
    let mut out: Vec<u8> = Vec::new();
    let mut i: usize = 0;
    while i < name.len()
        invariant
            0 <= i <= name@.len(),
            out@ == name@.subrange(0, i as int),
        decreases name@.len() - i,
    {
        out.push(name[i]);
        i = i + 1;
        assert(out@ =~= name@.subrange(0, i as int));
    }
    out.push(46u8);
    let p = parent.as_bytes();
    let ghost head = out@;
    let mut k: usize = 0;
    while k < p.len()
        invariant
            p@ == parent.spec_bytes(),
            0 <= k <= p@.len(),
            out@ == head + p@.subrange(0, k as int),
        decreases p@.len() - k,
    {
        out.push(p[k]);
        k = k + 1;
        assert(out@ =~= head + p@.subrange(0, k as int));
    }
    assert(name@.subrange(0, name@.len() as int) =~= name@);
    assert(p@.subrange(0, p@.len() as int) =~= p@);
    assert(out@ =~= child_of(name@, parent.spec_bytes()));
    out
}

/// Whether the host accepts `id` as an account identifier.
pub uninterp spec fn legal_account_id(id: Seq<u8>) -> bool;

/// Relies on near_sdk::env::is_valid_account_id: a check of the identifier's
/// bytes alone, with no call into the host.
#[verifier::external_body]
pub(crate) fn account_id_is_legal(id: &Vec<u8>) -> (r: bool)
    ensures
        r == legal_account_id(id@),
{
    near_sdk::env::is_valid_account_id(id.as_slice())
}

} // verus!
