use vstd::prelude::*;
use vstd::string::StringExecFns;

verus! {

/// The lower-case hexadecimal digit for a value below 16.
pub open spec fn hex_char(d: nat) -> char {
    if d < 10 {
        (('0' as nat) + d) as char
    } else {
        (('a' as nat) + (d - 10)) as char
    }
}

/// The `n` low hexadecimal digits of `x`, most significant first.
pub open spec fn hex_digits(x: nat, n: nat) -> Seq<char>
    decreases n,
{
    if n == 0 {
        Seq::empty()
    } else {
        hex_digits(x / 16, (n - 1) as nat).push(hex_char(x % 16))
    }
}

/// The `n` low bytes of `x`, most significant first.
pub open spec fn be_bytes(x: nat, n: nat) -> Seq<u8>
    decreases n,
{
    if n == 0 {
        Seq::empty()
    } else {
        be_bytes(x / 256, (n - 1) as nat).push((x % 256) as u8)
    }
}

/// The textual form of an identifier: 32 lower-case hex digits in groups of
/// 8, 4, 4, 4 and 12, joined by hyphens.
pub open spec fn hyphenated(id: u128) -> Seq<char> {
    let d = hex_digits(id as nat, 32);
    d.subrange(0, 8) + seq!['-'] + d.subrange(8, 12) + seq!['-'] + d.subrange(12, 16)
        + seq!['-'] + d.subrange(16, 20) + seq!['-'] + d.subrange(20, 32)
}

/// The prefix of an index's directory name.
pub open spec fn dir_prefix() -> Seq<char> {
    seq!['i', 'n', 'd', 'e', 'x', '-']
}

/// Relies on uuid's `Uuid::from_u128` and its `Display`, which writes the
/// lower-case hyphenated form.
#[verifier::external_body]
fn uuid_text(id: u128) -> (r: String)
    ensures
        r@ == hyphenated(id),
{
    uuid::Uuid::from_u128(id).to_string()
}

/// Relies on uuid's `Uuid::from_u128` and `Uuid::as_bytes`: the sixteen bytes
/// of the value, most significant first.
#[verifier::external_body]
fn uuid_bytes(id: u128) -> (r: Vec<u8>)
    ensures
        r@ == be_bytes(id as nat, 16),
{
    uuid::Uuid::from_u128(id).as_bytes().to_vec()
}

/// The key of an index's record in the meta database: the identifier's
/// sixteen raw bytes.
pub fn meta_key(id: u128) -> (r: Vec<u8>)
    ensures
        r@ == be_bytes(id as nat, 16),
        r@.len() == 16,
{
    proof { lemma_be_bytes_len(id as nat, 16); }
    uuid_bytes(id)
}

/// The name of the directory that holds an index: `index-<id>`.
pub fn index_dir_name(id: u128) -> (r: String)
    ensures
        r@ == dir_prefix() + hyphenated(id),
{
    let text = uuid_text(id);
    let prefix = String::from_str("index-");
    proof { reveal_strlit("index-"); }
    let r = prefix.concat(text.as_str());
    assert(r@ =~= dir_prefix() + hyphenated(id));
    r
}

pub proof fn lemma_be_bytes_len(x: nat, n: nat)
    ensures
        be_bytes(x, n).len() == n,
    decreases n,
{
    if n > 0 {
        lemma_be_bytes_len(x / 256, (n - 1) as nat);
    }
}

} // verus!
