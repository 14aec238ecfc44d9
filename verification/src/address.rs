//! Bluetooth addresses and how they are written.
use vstd::prelude::*;

verus! {

broadcast use vstd::array::group_array_axioms;

/// The value of a hexadecimal digit of either case.
pub open spec fn digit_value(c: char) -> Option<int> {
    if '0' <= c && c <= '9' {
        Some(c as int - '0' as int)
    } else if 'A' <= c && c <= 'F' {
        Some(c as int - 'A' as int + 10)
    } else if 'a' <= c && c <= 'f' {
        Some(c as int - 'a' as int + 10)
    } else {
        None
    }
}

/// The number that hexadecimal digits stand for.
pub open spec fn number(digits: Seq<char>) -> Option<int>
    decreases digits.len(),
{
    if digits.len() == 0 {
        Some(0)
    } else {
        match (number(digits.drop_last()), digit_value(digits.last())) {
            (Some(high), Some(low)) => Some(16 * high + low),
            _ => None,
        }
    }
}

/// The byte that a field stands for: digits, after a plus sign that may be
/// there, of a number that fits.
pub open spec fn field_value(field: Seq<char>) -> Option<u8> {
    let digits = if field.len() > 0 && field[0] == '+' { field.skip(1) } else { field };
    match number(digits) {
        Some(value) => if digits.len() > 0 && value <= 255 { Some(value as u8) } else { None },
        None => None,
    }
}

/// The parts of a text between its colons.
pub open spec fn fields(text: Seq<char>) -> Seq<Seq<char>>
    decreases text.len(),
{
    if text.len() == 0 {
        seq![Seq::empty()]
    } else {
        let rest = fields(text.skip(1));
        if text[0] == ':' {
            seq![Seq::empty()] + rest
        } else {
            rest.update(0, seq![text[0]] + rest[0])
        }
    }
}

/// The bytes that fields stand for, or the first field that stands for none.
pub open spec fn field_values(parts: Seq<Seq<char>>) -> Result<Seq<u8>, Seq<char>>
    decreases parts.len(),
{
    if parts.len() == 0 {
        Ok(Seq::empty())
    } else {
        match (field_values(parts.drop_last()), field_value(parts.last())) {
            (Err(part), _) => Err(part),
            (Ok(bytes), Some(byte)) => Ok(bytes.push(byte)),
            (Ok(_), None) => Err(parts.last()),
        }
    }
}

/// The six bytes that a text stands for, or the part of it that is refused.
pub open spec fn address_of(text: Seq<char>) -> Result<Seq<u8>, Seq<char>> {
    match field_values(fields(text)) {
        Ok(bytes) => if bytes.len() == 6 { Ok(bytes) } else { Err(text) },
        Err(part) => Err(part),
    }
}

/// The upper case digit of a value below sixteen.
pub open spec fn digit(value: int) -> char {
    if value < 10 {
        ('0' as int + value) as char
    } else {
        ('A' as int + value - 10) as char
    }
}

/// How an address is written: two upper case digits for each byte, with colons
/// between the bytes.
pub open spec fn written(address: Seq<u8>) -> Seq<char> {
    Seq::new(
        17,
        |i: int|
            if i % 3 == 2 {
                ':'
            } else if i % 3 == 0 {
                digit(address[i / 3] as int / 16)
            } else {
                digit(address[i / 3] as int % 16)
            },
    )
}

/// Calls `Address::from_str` of the crate `bluer`. Believed of it: the text is
/// cut at its colons, every part is read as a hexadecimal byte by
/// `u8::from_str_radix`, and there must be six of them. The error holds the first
/// part that is no byte, or the whole text where the number of parts is wrong.
#[verifier::external_body]
fn read(text: &str) -> (r: Result<[u8; 6], String>)
    ensures
        match r {
            Ok(address) => address_of(text@) == Ok::<Seq<u8>, Seq<char>>(address@),
            Err(part) => address_of(text@) == Err::<Seq<u8>, Seq<char>>(part@),
        },
{
    match text.parse::<bluer::Address>() {
        Ok(address) => Ok(address.0),
        Err(bluer::InvalidAddress(part)) => Err(part),
    }
}

/// Calls `to_string` on an `Address` of the crate `bluer`. Believed of it: the
/// bytes are written as two upper case hexadecimal digits each, in order, with
/// colons between them.
#[verifier::external_body]
pub(crate) fn write(address: [u8; 6]) -> (r: String)
    ensures
        r@ == written(address@),
{
    bluer::Address(address).to_string()
}

/// What is said of a text that is no address.
pub open spec fn invalid(part: Seq<char>) -> Seq<char> {
    "invalid Bluetooth address: "@ + part
}

/// The address that a text stands for, or what is wrong with it.
pub open spec fn parsed(text: Seq<char>) -> Result<Seq<u8>, Seq<char>> {
    match address_of(text) {
        Ok(address) => Ok(address),
        Err(part) => Err(invalid(part)),
    }
}

/// The address that a text stands for, or what is wrong with it.
pub fn parse(text: &str) -> (r: Result<[u8; 6], String>)
    ensures
        match r {
            Ok(address) => parsed(text@) == Ok::<Seq<u8>, Seq<char>>(address@),
            Err(message) => parsed(text@) == Err::<Seq<u8>, Seq<char>>(message@),
        },
{
    match read(text) {
        Ok(address) => Ok(address),
        Err(part) => Err(crate::text::join("invalid Bluetooth address: ", part.as_str())),
    }
}

/// Whether two addresses are the same.
pub fn same(a: &[u8; 6], b: &[u8; 6]) -> (r: bool)
    ensures
        r == (a@ == b@),
        r == (*a == *b),
{
    let r = a[0] == b[0] && a[1] == b[1] && a[2] == b[2] && a[3] == b[3] && a[4] == b[4] && a[5]
        == b[5];
    assert(r ==> a@ =~= b@);
    assert(r ==> *a =~= *b);
    r
}

proof fn digit_is_read(value: int)
    requires
        0 <= value < 16,
    ensures
        digit_value(digit(value)) == Some(value),
        digit(value) != ':',
        digit(value) != '+',
{
}

proof fn byte_is_read(byte: u8)
    ensures
        field_value(seq![digit(byte as int / 16), digit(byte as int % 16)]) == Some(byte),
{
    let two = seq![digit(byte as int / 16), digit(byte as int % 16)];
    digit_is_read(byte as int / 16);
    digit_is_read(byte as int % 16);
    assert(two.drop_last() =~= seq![two[0]]);
    assert(seq![two[0]].drop_last() =~= Seq::<char>::empty());
    reveal_with_fuel(number, 3);
    assert(number(seq![two[0]]) == Some(byte as int / 16));
}

proof fn field_is_cut(a: char, b: char, rest: Seq<char>)
    requires
        a != ':',
        b != ':',
    ensures
        fields(seq![a, b]) == seq![seq![a, b]],
        fields(seq![a, b, ':'] + rest) == seq![seq![a, b]] + fields(rest),
{
    let whole = seq![a, b, ':'] + rest;
    assert(whole.skip(1) =~= seq![b, ':'] + rest);
    assert(whole.skip(1).skip(1) =~= seq![':'] + rest);
    assert(whole.skip(1).skip(1).skip(1) =~= rest);
    let tail = fields(rest);
    assert(fields(seq![':'] + rest) == seq![Seq::<char>::empty()] + tail);
    assert(fields(whole.skip(1)) =~= seq![seq![b]] + tail) by {
        assert(seq![b] + Seq::<char>::empty() =~= seq![b]);
    }
    assert(seq![a] + seq![b] =~= seq![a, b]);
    assert(fields(whole) =~= seq![seq![a, b]] + tail);
    let two = seq![a, b];
    assert(two.skip(1) =~= seq![b]);
    assert(seq![b].skip(1) =~= Seq::<char>::empty());
    assert(fields(Seq::<char>::empty()) =~= seq![Seq::<char>::empty()]);
    assert(fields(seq![b]) =~= seq![seq![b]]) by {
        assert(seq![b] + Seq::<char>::empty() =~= seq![b]);
    }
    assert(fields(two) =~= seq![seq![a, b]]);
}

/// Writing an address and reading it gives it back.
pub proof fn written_addresses_are_read(address: Seq<u8>)
    requires
        address.len() == 6,
    ensures
        address_of(written(address)) == Ok::<Seq<u8>, Seq<char>>(address),
        parsed(written(address)) == Ok::<Seq<u8>, Seq<char>>(address),
{
    let text = written(address);
    let parts = Seq::new(
        6,
        |i: int| seq![digit(address[i] as int / 16), digit(address[i] as int % 16)],
    );
    assert forall|i: int| 0 <= i < 6 implies field_value(#[trigger] parts[i]) == Some(address[i])
        && parts[i][0] != ':' && parts[i][1] != ':' by {
        byte_is_read(address[i]);
        digit_is_read(address[i] as int / 16);
        digit_is_read(address[i] as int % 16);
    }
    assert(fields(text) == parts) by {
        written_fields(address, parts);
    }
    assert forall|n: int| 0 <= n <= 6 implies field_values(#[trigger] parts.take(n)) == Ok::<
        Seq<u8>,
        Seq<char>,
    >(address.take(n)) by {
        values_of_prefix(address, parts, n);
    }
    assert(parts.take(6) =~= parts);
    assert(address.take(6) =~= address);
}

proof fn values_of_prefix(address: Seq<u8>, parts: Seq<Seq<char>>, n: int)
    requires
        address.len() == 6,
        parts.len() == 6,
        0 <= n <= 6,
        forall|i: int| 0 <= i < 6 ==> field_value(#[trigger] parts[i]) == Some(address[i]),
    ensures
        field_values(parts.take(n)) == Ok::<Seq<u8>, Seq<char>>(address.take(n)),
    decreases n,
{
    if n == 0 {
        assert(address.take(0) =~= Seq::<u8>::empty());
    } else {
        values_of_prefix(address, parts, n - 1);
        assert(parts.take(n).drop_last() =~= parts.take(n - 1));
        assert(parts.take(n).last() == parts[n - 1]);
        assert(address.take(n) =~= address.take(n - 1).push(address[n - 1]));
    }
}

proof fn written_fields(address: Seq<u8>, parts: Seq<Seq<char>>)
    requires
        address.len() == 6,
        parts == Seq::new(
            6,
            |i: int| seq![digit(address[i] as int / 16), digit(address[i] as int % 16)],
        ),
        forall|i: int| 0 <= i < 6 ==> (#[trigger] parts[i])[0] != ':' && parts[i][1] != ':',
    ensures
        fields(written(address)) == parts,
{
    let text = written(address);
    written_field(address, 0);
    written_field(address, 1);
    written_field(address, 2);
    written_field(address, 3);
    written_field(address, 4);
    let last = parts[5];
    assert(text.skip(15) =~= seq![last[0], last[1]]);
    assert(seq![last[0], last[1]] =~= last);
    field_is_cut(last[0], last[1], Seq::empty());
    assert(text.skip(0) =~= text);
    assert(fields(text) =~= parts);
}

proof fn written_field(address: Seq<u8>, k: int)
    requires
        address.len() == 6,
        0 <= k < 5,
    ensures
        fields(written(address).skip(3 * k)) == seq![
            seq![digit(address[k] as int / 16), digit(address[k] as int % 16)],
        ] + fields(written(address).skip(3 * k + 3)),
{
    let text = written(address);
    let (a, b) = (digit(address[k] as int / 16), digit(address[k] as int % 16));
    let rest = text.skip(3 * k + 3);
    digit_is_read(address[k] as int / 16);
    digit_is_read(address[k] as int % 16);
    assert(text.skip(3 * k) =~= seq![a, b, ':'] + rest);
    field_is_cut(a, b, rest);
}

/// A text that is refused is named in what is said of it: the part that is no byte, or
/// the whole text.
pub proof fn refused_texts_are_named(text: Seq<char>)
    ensures
        parsed(text) is Ok <==> address_of(text) is Ok,
        parsed(text) matches Ok(address) ==> address.len() == 6 && address_of(text) == Ok::<
            Seq<u8>,
            Seq<char>,
        >(address),
        parsed(text) matches Err(message) ==> (address_of(text) matches Err(part) && message
            == "invalid Bluetooth address: "@ + part),
{
}

} // verus!
