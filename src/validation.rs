use vstd::prelude::*;
use vstd::string::StringExecFns;
use vstd::string::StrSliceExecFns;
use rustrict::CensorStr;

verus! {

/// Longest display name accepted, in UTF-8 bytes.
pub const MAX_NAME_BYTES: usize = 32;

/// A character with the Unicode White_Space property.
pub open spec fn is_white_space(c: char) -> bool {
    let u = c as u32;
    (0x9 <= u <= 0xD) || u == 0x20 || u == 0x85 || u == 0xA0 || u == 0x1680 || (0x2000 <= u <= 0x200A)
        || u == 0x2028 || u == 0x2029 || u == 0x202F || u == 0x205F || u == 0x3000
}

/// `s` without its leading white space.
pub open spec fn trim_start(s: Seq<char>) -> Seq<char>
    decreases s.len(),
{
    if s.len() > 0 && is_white_space(s[0]) {
        trim_start(s.drop_first())
    } else {
        s
    }
}

/// `s` without its trailing white space.
pub open spec fn trim_end(s: Seq<char>) -> Seq<char>
    decreases s.len(),
{
    if s.len() > 0 && is_white_space(s.last()) {
        trim_end(s.drop_last())
    } else {
        s
    }
}

/// What `str::trim` leaves of a text: the text without leading and trailing white space.
pub open spec fn trimmed(s: Seq<char>) -> Seq<char> {
    trim_end(trim_start(s))
}

/// Whether rustrict's filter judges a text inappropriate.
pub uninterp spec fn inappropriate(s: Seq<char>) -> bool;

/// Relies on `str::trim`, documented to remove leading and trailing characters with the
/// Unicode White_Space property.
#[verifier::external_body]
fn trim_text(s: &str) -> (r: String)
    ensures
        r@ == trimmed(s@),
{
    s.trim().to_string()
}

/// Relies on rustrict's `CensorStr::is_inappropriate`: the verdict depends on the text alone.
#[verifier::external_body]
fn is_inappropriate_text(s: &str) -> (r: bool)
    ensures
        r == inappropriate(s@),
{
    s.is_inappropriate()
}

/// Number of bytes UTF-8 uses for `c`.
pub open spec fn utf8_width(c: char) -> int {
    if (c as u32) < 0x80 {
        1
    } else if (c as u32) < 0x800 {
        2
    } else if (c as u32) < 0x10000 {
        3
    } else {
        4
    }
}

/// Length in bytes of the UTF-8 encoding of `s`.
pub open spec fn utf8_len(s: Seq<char>) -> int
    decreases s.len(),
{
    if s.len() == 0 {
        0
    } else {
        utf8_len(s.drop_last()) + utf8_width(s.last())
    }
}

proof fn lemma_utf8_len_prefix(s: Seq<char>, i: int)
    requires
        0 <= i <= s.len(),
    ensures
        utf8_len(s.take(i)) <= utf8_len(s),
    decreases s.len(),
{
    if i < s.len() {
        assert(s.take(i) =~= s.drop_last().take(i));
        lemma_utf8_len_prefix(s.drop_last(), i);
    } else {
        assert(s.take(i) =~= s);
    }
}

pub open spec fn empty_name_message() -> Seq<char> {
    "Name cannot be empty"@
}

pub open spec fn long_name_message() -> Seq<char> {
    "Name must be 32 characters or fewer"@
}

pub open spec fn rude_name_message() -> Seq<char> {
    "Name contains inappropriate language"@
}

/// The verdict on an already trimmed name `t`, given the filter's verdict `rude` on it.
pub open spec fn name_verdict(t: Seq<char>, rude: bool, r: Result<String, String>) -> bool {
    if t.len() == 0 {
        r matches Err(e) && e@ == empty_name_message()
    } else if utf8_len(t) > MAX_NAME_BYTES {
        r matches Err(e) && e@ == long_name_message()
    } else if rude {
        r matches Err(e) && e@ == rude_name_message()
    } else {
        r matches Ok(v) && v@ == t
    }
}

/// Whether `t` takes more than the allowed number of UTF-8 bytes.
fn too_long(t: &str) -> (b: bool)
    ensures
        b == (utf8_len(t@) > MAX_NAME_BYTES),
{
    let n = t.unicode_len();
    let mut total: usize = 0;
    let mut i: usize = 0;
    while i < n && total <= MAX_NAME_BYTES
        invariant
            n == t@.len(),
            0 <= i <= n,
            total as int == utf8_len(t@.take(i as int)),
            total <= MAX_NAME_BYTES + 4,
        decreases n - i,
    {
        let c = t.get_char(i);
        let w: usize = if (c as u32) < 0x80 {
            1
        } else if (c as u32) < 0x800 {
            2
        } else if (c as u32) < 0x10000 {
            3
        } else {
            4
        };
        assert(t@.take(i + 1).drop_last() =~= t@.take(i as int));
        total = total + w;
        i = i + 1;
    }
    proof {
        lemma_utf8_len_prefix(t@, i as int);
        if i == n {
            assert(t@.take(i as int) =~= t@);
        }
    }
    total > MAX_NAME_BYTES
}

/// Judges a name that has already been trimmed, given the filter's verdict on it.
pub fn check_trimmed_name(t: &str, rude: bool) -> (r: Result<String, String>)
    ensures
        name_verdict(t@, rude, r),
{
    proof {
        reveal_strlit("Name cannot be empty");
        reveal_strlit("Name must be 32 characters or fewer");
        reveal_strlit("Name contains inappropriate language");
    }
    if t.unicode_len() == 0 {
        return Err(String::from_str("Name cannot be empty"));
    }
    if too_long(t) {
        return Err(String::from_str("Name must be 32 characters or fewer"));
    }
    if rude {
        return Err(String::from_str("Name contains inappropriate language"));
    }
    Ok(String::from_str(t))
}

/// Validates a display name: trimmed, non-empty, at most 32 bytes, and not inappropriate.
/// Returns the trimmed name, or the message that says why it was refused.
pub fn validate_player_name(raw: &str) -> (r: Result<String, String>)
    ensures
        name_verdict(trimmed(raw@), inappropriate(trimmed(raw@)), r),
{
    let t = trim_text(raw);
    let rude = is_inappropriate_text(t.as_str());
    check_trimmed_name(t.as_str(), rude)
}

} // verus!
