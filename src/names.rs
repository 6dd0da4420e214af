use vstd::prelude::*;

verus! {

/// The character of decimal digit `d`.
pub open spec fn digit_char(d: nat) -> char {
    if d == 0 {
        '0'
    } else if d == 1 {
        '1'
    } else if d == 2 {
        '2'
    } else if d == 3 {
        '3'
    } else if d == 4 {
        '4'
    } else if d == 5 {
        '5'
    } else if d == 6 {
        '6'
    } else if d == 7 {
        '7'
    } else if d == 8 {
        '8'
    } else {
        '9'
    }
}

/// The decimal digits of `n`, most significant first, without leading zeros.
pub open spec fn decimal(n: nat) -> Seq<char>
    decreases n,
{
    if n < 10 {
        seq![digit_char(n)]
    } else {
        decimal(n / 10).push(digit_char(n % 10))
    }
}

fn digit_str(d: u128) -> (r: &'static str)
    requires
        d < 10,
    ensures
        r@ == seq![digit_char(d as nat)],
{
    proof {
        reveal_strlit("0");
        reveal_strlit("1");
        reveal_strlit("2");
        reveal_strlit("3");
        reveal_strlit("4");
        reveal_strlit("5");
        reveal_strlit("6");
        reveal_strlit("7");
        reveal_strlit("8");
        reveal_strlit("9");
    }
    if d == 0 {
        "0"
    } else if d == 1 {
        "1"
    } else if d == 2 {
        "2"
    } else if d == 3 {
        "3"
    } else if d == 4 {
        "4"
    } else if d == 5 {
        "5"
    } else if d == 6 {
        "6"
    } else if d == 7 {
        "7"
    } else if d == 8 {
        "8"
    } else {
        "9"
    }
}

/// `n` written in decimal.
pub fn decimal_string(n: u128) -> (r: String)
    ensures
        r@ == decimal(n as nat),
    decreases n,
{
    if n < 10 {
        String::from_str(digit_str(n))
    } else {
        let mut s = decimal_string(n / 10);
        s.append(digit_str(n % 10));
        s
    }
}

/// The name of the recording saved when `count` files are listed.
pub open spec fn recording_name(count: nat) -> Seq<char> {
    "recording_"@ + decimal(count + 1) + ".wav"@
}

/// Names a new recording `recording_<count + 1>.wav`.
pub fn recording_file_name(count: usize) -> (r: String)
    ensures
        r@ == recording_name(count as nat),
{
    let mut s = String::from_str("recording_");
    let digits = decimal_string(count as u128 + 1);
    s.append(digits.as_str());
    s.append(".wav");
    s
}

/// `s` ends in `.wav`, in any mix of upper and lower case.
pub open spec fn has_wav_suffix(s: Seq<char>) -> bool {
    &&& s.len() >= 4
    &&& s[s.len() - 4] == '.'
    &&& (s[s.len() - 3] == 'w' || s[s.len() - 3] == 'W')
    &&& (s[s.len() - 2] == 'a' || s[s.len() - 2] == 'A')
    &&& (s[s.len() - 1] == 'v' || s[s.len() - 1] == 'V')
}

/// Whether a file name is that of a WAV file: it ends in `.wav`, ignoring case.
pub fn is_wav_name(name: &str) -> (r: bool)
    ensures
        r == has_wav_suffix(name@),
{
    let n = name.unicode_len();
    if n < 4 {
        return false;
    }
    let dot = name.get_char(n - 4);
    let w = name.get_char(n - 3);
    let a = name.get_char(n - 2);
    let v = name.get_char(n - 1);
    dot == '.' && (w == 'w' || w == 'W') && (a == 'a' || a == 'A') && (v == 'v' || v == 'V')
}

/// `s` ends in `.wav` exactly, in lower case.
pub open spec fn has_lower_wav_suffix(s: Seq<char>) -> bool {
    &&& s.len() >= 4
    &&& s[s.len() - 4] == '.'
    &&& s[s.len() - 3] == 'w'
    &&& s[s.len() - 2] == 'a'
    &&& s[s.len() - 1] == 'v'
}

/// `s` without a trailing lower-case `.wav`.
pub open spec fn without_wav_suffix(s: Seq<char>) -> Seq<char> {
    if has_lower_wav_suffix(s) {
        s.subrange(0, s.len() - 4)
    } else {
        s
    }
}

/// The name offered for editing when a file is renamed: the file name
/// without its `.wav` extension.
pub fn strip_wav_suffix(name: &str) -> (r: String)
    ensures
        r@ == without_wav_suffix(name@),
{
    let n = name.unicode_len();
    if n >= 4 && name.get_char(n - 4) == '.' && name.get_char(n - 3) == 'w' && name.get_char(n - 2)
        == 'a' && name.get_char(n - 1) == 'v' {
        String::from_str(name.substring_char(0, n - 4))
    } else {
        String::from_str(name)
    }
}

/// `s` with `.wav` appended unless it already ends in `.wav`, ignoring case.
pub open spec fn with_wav(s: Seq<char>) -> Seq<char> {
    if has_wav_suffix(s) {
        s
    } else {
        s + ".wav"@
    }
}

/// Gives a file name the `.wav` extension unless it has it in some case.
pub fn with_wav_extension(name: &str) -> (r: String)
    ensures
        r@ == with_wav(name@),
{
    let mut s = String::from_str(name);
    if !is_wav_name(name) {
        s.append(".wav");
    }
    s
}

/// Whether two strings hold the same characters.
pub fn same_chars(a: &str, b: &str) -> (r: bool)
    ensures
        r == (a@ == b@),
{
    let n = a.unicode_len();
    if n != b.unicode_len() {
        return false;
    }
    let mut i: usize = 0;
    while i < n
        invariant
            n == a@.len(),
            n == b@.len(),
            i <= n,
            forall|k: int| 0 <= k < i ==> a@[k] == b@[k],
        decreases n - i,
    {
        if a.get_char(i) != b.get_char(i) {
            return false;
        }
        i = i + 1;
    }
    assert(a@ =~= b@);
    true
}

/// What `str::trim` returns for a string with characters `s`.
pub uninterp spec fn trimmed(s: Seq<char>) -> Seq<char>;

/// Relies on `str::trim`: `s` without its leading and trailing white space,
/// which depends on the characters of `s` alone and is empty when `s` is.
#[verifier::external_body]
fn trim_white_space(s: &str) -> (r: &str)
    ensures
        r@ == trimmed(s@),
        s@.len() == 0 ==> r@.len() == 0,
{
    s.trim()
}

/// The file name that an edited name stands for: the name without
/// surrounding white space, with `.wav` added when missing. An empty name
/// gives `None`.
pub fn file_name_from_input(input: &str) -> (r: Option<String>)
    ensures
        trimmed(input@).len() == 0 ==> r is None,
        trimmed(input@).len() > 0 ==> r is Some && r->0@ == with_wav(trimmed(input@)),
{
    let t = trim_white_space(input);
    if t.unicode_len() == 0 {
        None
    } else {
        Some(with_wav_extension(t))
    }
}

} // verus!
