//! Byte-level text: the fixed texts of the applications, byte comparison,
//! decimal rendering and escaping of echoed names.

use vstd::prelude::*;

verus! {

/// `Hello World!\n`: the body of the root page.
pub open spec fn hello_world() -> Seq<u8> {
    seq![72u8, 101, 108, 108, 111, 32, 87, 111, 114, 108, 100, 33, 10]
}

/// The bytes of [`hello_world`].
pub fn hello_world_bytes() -> (r: Vec<u8>)
    ensures
        r@ == hello_world(),
{
    vec![72, 101, 108, 108, 111, 32, 87, 111, 114, 108, 100, 33, 10]
}

/// `404 - Page not found`: the body of the static responder's 404 page.
pub open spec fn page_not_found() -> Seq<u8> {
    seq![52u8, 48, 52, 32, 45, 32, 80, 97, 103, 101, 32, 110, 111, 116, 32, 102, 111, 117, 110, 100]
}

/// The bytes of [`page_not_found`].
pub fn page_not_found_bytes() -> (r: Vec<u8>)
    ensures
        r@ == page_not_found(),
{
    vec![52, 48, 52, 32, 45, 32, 80, 97, 103, 101, 32, 110, 111, 116, 32, 102, 111, 117, 110, 100]
}

/// `404 - Route not found`: the body of the router's 404 response.
pub open spec fn route_not_found() -> Seq<u8> {
    seq![52u8, 48, 52, 32, 45, 32, 82, 111, 117, 116, 101, 32, 110, 111, 116, 32, 102, 111, 117, 110, 100]
}

/// The bytes of [`route_not_found`].
pub fn route_not_found_bytes() -> (r: Vec<u8>)
    ensures
        r@ == route_not_found(),
{
    vec![52, 48, 52, 32, 45, 32, 82, 111, 117, 116, 101, 32, 110, 111, 116, 32, 102, 111, 117, 110, 100]
}

/// `Response from downstream`: the body relayed back for a forwarded request.
pub open spec fn downstream_reply() -> Seq<u8> {
    seq![82u8, 101, 115, 112, 111, 110, 115, 101, 32, 102, 114, 111, 109, 32, 100, 111, 119, 110, 115, 116, 114, 101, 97, 109]
}

/// The bytes of [`downstream_reply`].
pub fn downstream_reply_bytes() -> (r: Vec<u8>)
    ensures
        r@ == downstream_reply(),
{
    vec![82, 101, 115, 112, 111, 110, 115, 101, 32, 102, 114, 111, 109, 32, 100, 111, 119, 110, 115, 116, 114, 101, 97, 109]
}

/// `This host has been visited `: the text before the count on the visit-count page.
pub open spec fn visited_prefix() -> Seq<u8> {
    seq![84u8, 104, 105, 115, 32, 104, 111, 115, 116, 32, 104, 97, 115, 32, 98, 101, 101, 110, 32, 118, 105, 115, 105, 116, 101, 100, 32]
}

/// The bytes of [`visited_prefix`].
pub fn visited_prefix_bytes() -> (r: Vec<u8>)
    ensures
        r@ == visited_prefix(),
{
    vec![84, 104, 105, 115, 32, 104, 111, 115, 116, 32, 104, 97, 115, 32, 98, 101, 101, 110, 32, 118, 105, 115, 105, 116, 101, 100, 32]
}

/// ` times\n`: the text after the count on the visit-count page.
pub open spec fn visited_suffix() -> Seq<u8> {
    seq![32u8, 116, 105, 109, 101, 115, 10]
}

/// The bytes of [`visited_suffix`].
pub fn visited_suffix_bytes() -> (r: Vec<u8>)
    ensures
        r@ == visited_suffix(),
{
    vec![32, 116, 105, 109, 101, 115, 10]
}

/// `Hello `: the text before the name on an echo page.
pub open spec fn greeting_prefix() -> Seq<u8> {
    seq![72u8, 101, 108, 108, 111, 32]
}

/// The bytes of [`greeting_prefix`].
pub fn greeting_prefix_bytes() -> (r: Vec<u8>)
    ensures
        r@ == greeting_prefix(),
{
    vec![72, 101, 108, 108, 111, 32]
}

/// `!\n`: the text after the name on an echo page.
pub open spec fn greeting_suffix() -> Seq<u8> {
    seq![33u8, 10]
}

/// The bytes of [`greeting_suffix`].
pub fn greeting_suffix_bytes() -> (r: Vec<u8>)
    ensures
        r@ == greeting_suffix(),
{
    vec![33, 10]
}

/// `/num`: the path of the visit-count page.
pub open spec fn num_path() -> Seq<u8> {
    seq![47u8, 110, 117, 109]
}

/// The bytes of [`num_path`].
pub fn num_path_bytes() -> (r: Vec<u8>)
    ensures
        r@ == num_path(),
{
    vec![47, 110, 117, 109]
}

/// `/downstream`: the one path that the router forwards.
pub open spec fn downstream_path() -> Seq<u8> {
    seq![47u8, 100, 111, 119, 110, 115, 116, 114, 101, 97, 109]
}

/// The bytes of [`downstream_path`].
pub fn downstream_path_bytes() -> (r: Vec<u8>)
    ensures
        r@ == downstream_path(),
{
    vec![47, 100, 111, 119, 110, 115, 116, 114, 101, 97, 109]
}

/// `408 - Request timed out`: the body sent when a request misses its deadline.
pub open spec fn timed_out() -> Seq<u8> {
    seq![52u8, 48, 56, 32, 45, 32, 82, 101, 113, 117, 101, 115, 116, 32, 116, 105, 109, 101, 100, 32, 111, 117, 116]
}

/// The bytes of [`timed_out`].
pub fn timed_out_bytes() -> (r: Vec<u8>)
    ensures
        r@ == timed_out(),
{
    vec![52, 48, 56, 32, 45, 32, 82, 101, 113, 117, 101, 115, 116, 32, 116, 105, 109, 101, 100, 32, 111, 117, 116]
}

/// Appends every byte of `data` to `out`, in order.
pub fn push_all(out: &mut Vec<u8>, data: &[u8])
    ensures
        final(out)@ == old(out)@ + data@,
{
    let mut i: usize = 0;
    while i < data.len()
        invariant
            i <= data@.len(),
            out@ == old(out)@ + data@.subrange(0, i as int),
        decreases data@.len() - i,
    {
        out.push(data[i]);
        i = i + 1;
        assert(data@.subrange(0, i as int) == data@.subrange(0, i - 1).push(data@[i - 1]));
    }
    assert(data@.subrange(0, data@.len() as int) == data@);
}

/// Whether two byte strings are the same.
pub fn bytes_equal(a: &[u8], b: &[u8]) -> (r: bool)
    ensures
        r == (a@ == b@),
{
    if a.len() != b.len() {
        return false;
    }
    let mut i: usize = 0;
    while i < a.len()
        invariant
            a@.len() == b@.len(),
            i <= a@.len(),
            forall|j: int| 0 <= j < i ==> a@[j] == b@[j],
        decreases a@.len() - i,
    {
        if a[i] != b[i] {
            return false;
        }
        i = i + 1;
    }
    assert(a@ == b@);
    true
}

/// The ASCII digit of a value below ten.
pub open spec fn digit(d: nat) -> u8 {
    (48 + d) as u8
}

/// The decimal rendering of `n`, most significant digit first, without
/// leading zeros.
pub open spec fn decimal(n: nat) -> Seq<u8>
    decreases n,
{
    if n < 10 {
        seq![digit(n)]
    } else {
        decimal(n / 10).push(digit(n % 10))
    }
}

/// Appends the decimal rendering of `n` to `out`.
pub fn push_decimal(out: &mut Vec<u8>, n: usize)
    ensures
        final(out)@ == old(out)@ + decimal(n as nat),
    decreases n,
{
    if n >= 10 {
        push_decimal(out, n / 10);
    }
    let d: u8 = (n % 10) as u8;
    out.push(48 + d);
    assert(old(out)@ + decimal(n as nat) == out@);
}

/// Control bytes: below space, and delete.
pub open spec fn is_control(b: u8) -> bool {
    b < 32 || b == 127
}

/// The uppercase hexadecimal digit of a value below sixteen.
pub open spec fn hex_digit(d: u8) -> u8 {
    if d < 10 {
        (48 + d) as u8
    } else {
        (55 + d) as u8
    }
}

/// One byte as it stands in an echoed name: a control byte becomes `%`
/// followed by two hexadecimal digits, any other byte stays as it is.
pub open spec fn escape_byte(b: u8) -> Seq<u8> {
    if is_control(b) {
        seq![37u8, hex_digit(b / 16), hex_digit(b % 16)]
    } else {
        seq![b]
    }
}

/// A name with each of its bytes escaped.
pub open spec fn escaped(s: Seq<u8>) -> Seq<u8>
    decreases s.len(),
{
    if s.len() == 0 {
        Seq::empty()
    } else {
        escaped(s.drop_last()) + escape_byte(s.last())
    }
}

fn hex_digit_exec(d: u8) -> (r: u8)
    requires
        d < 16,
    ensures
        r == hex_digit(d),
{
    if d < 10 {
        48 + d
    } else {
        55 + d
    }
}

/// Appends `name` to `out` with its control bytes escaped.
pub fn push_escaped(out: &mut Vec<u8>, name: &[u8])
    ensures
        final(out)@ == old(out)@ + escaped(name@),
{
    let mut i: usize = 0;
    while i < name.len()
        invariant
            i <= name@.len(),
            out@ == old(out)@ + escaped(name@.subrange(0, i as int)),
        decreases name@.len() - i,
    {
        let b: u8 = name[i];
        let ghost before = out@;
        if b < 32 || b == 127 {
            out.push(37);
            out.push(hex_digit_exec(b / 16));
            out.push(hex_digit_exec(b % 16));
        } else {
            out.push(b);
        }
        assert(out@ == before + escape_byte(b));
        let ghost next = name@.subrange(0, i + 1);
        assert(next.drop_last() == name@.subrange(0, i as int));
        i = i + 1;
    }
    assert(name@.subrange(0, name@.len() as int) == name@);
}

} // verus!
