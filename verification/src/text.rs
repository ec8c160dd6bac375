//! The text that the library builds and compares: the address to connect
//! to, and the path of the document inside the remote directory.

use vstd::prelude::*;

verus! {

/// The name of the document inside whichever directory holds it.
pub const FILE_NAME: &'static str = "data.json";

/// The character for one decimal digit.
pub open spec fn digit(d: nat) -> char
    recommends
        d < 10,
{
    if d == 0 {
        '0'
    } else if d == 1 {
        '1'
    } else if d == 2 {
        '2'
    } else if d == 3 {
        '3'
    } else if d == 4 {
        '4'
    } else if d == 5 {
        '5'
    } else if d == 6 {
        '6'
    } else if d == 7 {
        '7'
    } else if d == 8 {
        '8'
    } else {
        '9'
    }
}

/// A number in decimal, without sign or leading zeros.
pub open spec fn decimal(n: nat) -> Seq<char>
    decreases n,
{
    if n < 10 {
        seq![digit(n)]
    } else {
        decimal(n / 10) + seq![digit(n % 10)]
    }
}

/// `s` without the slashes at its end.
pub open spec fn without_trailing_slashes(s: Seq<char>) -> Seq<char>
    decreases s.len(),
{
    if s.len() > 0 && s.last() == '/' {
        without_trailing_slashes(s.drop_last())
    } else {
        s
    }
}

/// The address of `port` on `host`, as a connection takes it.
pub open spec fn address_of(host: Seq<char>, port: u16) -> Seq<char> {
    host + seq![':'] + decimal(port as nat)
}

/// The path of the document inside `dir`.
pub open spec fn file_path_of(dir: Seq<char>) -> Seq<char> {
    without_trailing_slashes(dir) + seq!['/'] + FILE_NAME@
}

fn digit_text(d: u8) -> (r: &'static str)
    requires
        d < 10,
    ensures
        r@ == seq![digit(d as nat)],
{
    proof {
        reveal_strlit("0");
        reveal_strlit("1");
        reveal_strlit("2");
        reveal_strlit("3");
        reveal_strlit("4");
        reveal_strlit("5");
        reveal_strlit("6");
        reveal_strlit("7");
        reveal_strlit("8");
        reveal_strlit("9");
    }
    let r = if d == 0 {
        "0"
    } else if d == 1 {
        "1"
    } else if d == 2 {
        "2"
    } else if d == 3 {
        "3"
    } else if d == 4 {
        "4"
    } else if d == 5 {
        "5"
    } else if d == 6 {
        "6"
    } else if d == 7 {
        "7"
    } else if d == 8 {
        "8"
    } else {
        "9"
    };
    assert(r@ =~= seq![digit(d as nat)]);
    r
}

/// Writes `n` in decimal.
pub fn decimal_text(n: u16) -> (r: String)
    ensures
        r@ == decimal(n as nat),
    decreases n,
{
    if n < 10 {
        String::from_str(digit_text(n as u8))
    } else {
        let mut r = decimal_text(n / 10);
        r.append(digit_text((n % 10) as u8));
        r
    }
}

/// Whether two texts are the same, character for character.
pub fn same_text(a: &str, b: &str) -> (r: bool)
    ensures
        r == (a@ == b@),
{
    let left = String::from_str(a);
    let right = String::from_str(b);
    left == right
}

/// Drops the slashes at the end of `s`.
pub fn trim_trailing_slashes(s: &str) -> (r: &str)
    ensures
        r@ == without_trailing_slashes(s@),
{
    let mut end: usize = s.unicode_len();
    assert(s@.subrange(0, end as int) =~= s@);
    while end > 0 && s.get_char(end - 1) == '/'
        invariant
            end <= s@.len(),
            without_trailing_slashes(s@) == without_trailing_slashes(s@.subrange(0, end as int)),
        decreases end,
    {
        assert(s@.subrange(0, end as int).drop_last() =~= s@.subrange(0, end - 1));
        end = end - 1;
    }
    s.substring_char(0, end)
}

/// The address to connect to: the host, a colon, the port in decimal.
pub fn socket_address(host: &str, port: u16) -> (r: String)
    ensures
        r@ == address_of(host@, port),
{
    proof {
        reveal_strlit(":");
    }
    let mut r = String::from_str(host);
    r.append(":");
    assert(r@ =~= host@ + seq![':']);
    let digits = decimal_text(port);
    r.append(digits.as_str());
    r
}

/// The path of the document inside `dir`: `dir` without the slashes at its
/// end, one slash, and the fixed file name.
pub fn remote_file_path(dir: &str) -> (r: String)
    ensures
        r@ == file_path_of(dir@),
{
    proof {
        reveal_strlit("/");
    }
    let mut r = String::from_str(trim_trailing_slashes(dir));
    r.append("/");
    assert(r@ =~= without_trailing_slashes(dir@) + seq!['/']);
    r.append(FILE_NAME);
    r
}

/// What trimming leaves: a prefix of the text that does not end in a slash,
/// and only slashes after it.
pub proof fn lemma_trim_is_longest_slash_free_prefix(s: Seq<char>)
    ensures
        without_trailing_slashes(s).len() <= s.len(),
        without_trailing_slashes(s) == s.subrange(0, without_trailing_slashes(s).len() as int),
        without_trailing_slashes(s).len() > 0 ==> without_trailing_slashes(s).last() != '/',
        forall|i: int| without_trailing_slashes(s).len() <= i < s.len() ==> s[i] == '/',
    decreases s.len(),
{
    if s.len() > 0 && s.last() == '/' {
        let t = s.drop_last();
        lemma_trim_is_longest_slash_free_prefix(t);
        let k = without_trailing_slashes(t).len() as int;
        assert(t.subrange(0, k) =~= s.subrange(0, k));
        assert forall|i: int| k <= i < s.len() implies s[i] == '/' by {
            if i < t.len() {
                assert(t[i] == s[i]);
            }
        }
    } else {
        assert(s.subrange(0, s.len() as int) =~= s);
    }
}

} // verus!
