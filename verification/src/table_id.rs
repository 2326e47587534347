//! Tables are identified by UUIDs, held here as the 128-bit numbers they
//! stand for. Each table's rows live in a file named by its id, written in
//! the hyphenated lowercase form `xxxxxxxx-xxxx-xxxx-xxxx-xxxxxxxxxxxx`.
use vstd::arithmetic::power::pow;
use vstd::prelude::*;

verus! {

/// The lowercase hexadecimal digit for `d`, where `0 <= d < 16`.
pub open spec fn hex_digit(d: int) -> char {
    if d < 10 {
        (d + 0x30) as char
    } else {
        (d - 10 + 0x61) as char
    }
}

/// The last `n` hexadecimal digits of `v`, most significant first.
pub open spec fn hex_digits(v: nat, n: nat) -> Seq<char>
    decreases n,
{
    if n == 0 {
        Seq::empty()
    } else {
        hex_digits(v / 16, (n - 1) as nat).push(hex_digit((v % 16) as int))
    }
}

/// The hyphenated lowercase form of a UUID: its 32 hexadecimal digits, most
/// significant first, in groups of 8, 4, 4, 4 and 12 joined by hyphens.
pub open spec fn hyphenated(id: u128) -> Seq<char> {
    let d = hex_digits(id as nat, 32);
    d.subrange(0, 8) + seq!['-'] + d.subrange(8, 12) + seq!['-'] + d.subrange(12, 16) + seq!['-']
        + d.subrange(16, 20) + seq!['-'] + d.subrange(20, 32)
}

/// The position in the hyphenated form of the `j`-th hexadecimal digit:
/// one further on for each hyphen before it.
pub open spec fn digit_position(j: int) -> int {
    j + (if j >= 8 { 1int } else { 0 }) + (if j >= 12 { 1int } else { 0 }) + (if j >= 16 {
        1int
    } else {
        0
    }) + (if j >= 20 { 1int } else { 0 })
}

/// Digits are lowercase hexadecimal characters, and distinct values have
/// distinct digits.
pub proof fn lemma_hex_digit_is_lowercase_hex(d: int, e: int)
    requires
        0 <= d < 16,
        0 <= e < 16,
    ensures
        ('0' <= hex_digit(d) <= '9') || ('a' <= hex_digit(d) <= 'f'),
        d < 10 <==> hex_digit(d) <= '9',
        d != e ==> hex_digit(d) != hex_digit(e),
{
}

/// The `n` digits of `v` are, from the left, `v`'s base-16 digits from
/// position `n - 1` down to 0.
pub proof fn lemma_hex_digits_are_base_16(v: nat, n: nat)
    ensures
        hex_digits(v, n).len() == n,
        forall|i: int|
            0 <= i < n ==> #[trigger] hex_digits(v, n)[i] == hex_digit(
                ((v as int / pow(16, (n - 1 - i) as nat)) % 16),
            ),
    decreases n,
{
    if n > 0 {
        lemma_hex_digits_are_base_16(v / 16, (n - 1) as nat);
        assert forall|i: int| 0 <= i < n implies #[trigger] hex_digits(v, n)[i] == hex_digit(
            ((v as int / pow(16, (n - 1 - i) as nat)) % 16),
        ) by {
            let k = (n - 1 - i) as nat;
            if i < n - 1 {
                let k1 = (k - 1) as nat;
                vstd::arithmetic::power::lemma_pow_positive(16, k1);
                vstd::arithmetic::div_mod::lemma_div_denominator(v as int, 16, pow(16, k1));
                assert(pow(16, k) == 16 * pow(16, k1)) by {
                    vstd::arithmetic::power::lemma_pow_adds(16, 1, k1);
                    vstd::arithmetic::power::lemma_pow1(16);
                }
            } else {
                vstd::arithmetic::power::lemma_pow0(16);
            }
        }
    }
}

/// The hyphenated form is 36 characters: hyphens at positions 8, 13, 18 and
/// 23, and between them the id's 32 base-16 digits, most significant first.
pub proof fn lemma_hyphenated_form(id: u128)
    ensures
        hyphenated(id).len() == 36,
        hyphenated(id)[8] == '-',
        hyphenated(id)[13] == '-',
        hyphenated(id)[18] == '-',
        hyphenated(id)[23] == '-',
        forall|j: int|
            0 <= j < 32 ==> hyphenated(id)[#[trigger] digit_position(j)] == hex_digit(
                ((id as int / pow(16, (31 - j) as nat)) % 16),
            ),
{
    lemma_hex_digits_are_base_16(id as nat, 32);
    let d = hex_digits(id as nat, 32);
    assert forall|j: int| 0 <= j < 32 implies hyphenated(id)[#[trigger] digit_position(j)]
        == d[j] by {
    }
}

/// What `uuid::Uuid::try_parse` makes of a string: the UUID's number, or
/// nothing where the string is no UUID.
pub uninterp spec fn uuid_try_parse(s: Seq<char>) -> Option<u128>;

/// Calls `uuid::Uuid::try_parse` and takes the parsed UUID as its number.
/// Trusted: the result is what `uuid_try_parse` names for the string, and
/// the hyphenated lowercase form of a UUID parses back to that UUID (the
/// parser accepts that form, and `Uuid::from_u128` and `as_u128` agree).
/// Left unsaid: the other forms the parser accepts (simple, braced, URN,
/// upper case) and which strings it refuses.
#[verifier::external_body]
fn parse_uuid(s: &str) -> (id: Option<u128>)
    ensures
        id == uuid_try_parse(s@),
        forall|v: u128| s@ == hyphenated(v) ==> id == Some(v),
{
    match uuid::Uuid::try_parse(s) {
        Ok(uuid) => Some(uuid.as_u128()),
        Err(_) => None,
    }
}

/// Calls `uuid::Uuid::from_u128` and formats the UUID with `to_string`.
/// Trusted: the text is the hyphenated lowercase form, as `Uuid`'s
/// `Display` writes it.
#[verifier::external_body]
fn format_uuid(id: u128) -> (s: String)
    ensures
        s@ == hyphenated(id),
{
    uuid::Uuid::from_u128(id).to_string()
}

/// The name of the file that holds the rows of table `table`.
pub fn table_file_name(table: u128) -> (name: String)
    ensures
        name@ == hyphenated(table),
{
    format_uuid(table)
}

/// The table whose rows a file of this name holds, or `None` where the
/// name is no UUID. The name of a table's file gives back that table.
pub fn table_id_from_file_name(name: &str) -> (table: Option<u128>)
    ensures
        table == uuid_try_parse(name@),
        forall|v: u128| name@ == hyphenated(v) ==> table == Some(v),
{
    parse_uuid(name)
}

} // verus!
