use vstd::prelude::*;

verus! {

/// The failures a caller of the store can observe.
///
/// `Store` carries the storage engine's own message verbatim; the other two
/// variants are detected in this layer before any engine work is attempted.
#[derive(Debug)]
pub enum DbError {
    /// A failure reported by the underlying storage engine.
    Store(String),
    /// A caller-supplied scan direction outside `forward` / `reverse`.
    InvalidArgument,
    /// An operation on a write batch that has already been committed.
    AlreadyUsed,
}

impl DbError {
    /// A human-readable description of the failure.
    pub fn message(&self) -> (r: String)
        ensures
            self matches DbError::Store(m) ==> r@ == m@,
            self is InvalidArgument ==> r@ == "Invalid direction, must be 'forward' or 'reverse'"@,
            self is AlreadyUsed ==> r@ == "WriteBatch has already been used"@,
    {
        match self {
            DbError::Store(m) => m.clone(),
            DbError::InvalidArgument => "Invalid direction, must be 'forward' or 'reverse'".to_owned(),
            DbError::AlreadyUsed => "WriteBatch has already been used".to_owned(),
        }
    }
}

/// The scan direction of a range iterator.
pub enum Direction {
    /// Ascending byte-lexicographic key order.
    Forward,
    /// Descending byte-lexicographic key order.
    Reverse,
}

/// Whether `c` spells the lower-case letter `l` up to ASCII case.
pub open spec fn char_ci_eq(c: char, l: char) -> bool {
    c == l || ('A' <= c && c <= 'Z' && c as int + 32 == l as int)
}

/// Whether `s` spells the all-lower-case word `t` up to ASCII case.
pub open spec fn str_ci_eq(s: Seq<char>, t: Seq<char>) -> bool {
    s.len() == t.len() && forall|i: int| 0 <= i < s.len() ==> char_ci_eq(s[i], #[trigger] t[i])
}

/// The direction a token denotes: `forward` and `reverse`, case-insensitively;
/// every other token is invalid.
pub open spec fn direction_of(s: Seq<char>) -> Option<Direction> {
    if str_ci_eq(s, "forward"@) {
        Some(Direction::Forward)
    } else if str_ci_eq(s, "reverse"@) {
        Some(Direction::Reverse)
    } else {
        None
    }
}

/// Whether `s` spells `t` up to ASCII case; `t` must be all lower case.
fn eq_ignore_ascii_case(s: &str, t: &str) -> (r: bool)
    ensures
        r == str_ci_eq(s@, t@),
{
    let n = s.unicode_len();
    if n != t.unicode_len() {
        return false;
    }
    let mut i: usize = 0;
    while i < n
        invariant
            0 <= i <= n,
            n == s@.len(),
            n == t@.len(),
            forall|j: int| 0 <= j < i ==> char_ci_eq(s@[j], #[trigger] t@[j]),
        decreases n - i,
    {
        let c = s.get_char(i);
        let l = t.get_char(i);
        let ci = c as u32;
        let li = l as u32;
        if !(c == l || ('A' <= c && c <= 'Z' && ci + 32 == li)) {
            return false;
        }
        i += 1;
    }
    true
}

/// Parses a scan-direction token: `forward` or `reverse`, case-insensitively;
/// any other token is rejected with `InvalidArgument`.
pub fn parse_direction(s: &str) -> (r: Result<Direction, DbError>)
    ensures
        r matches Ok(d) ==> direction_of(s@) == Some(d),
        r matches Err(e) ==> direction_of(s@) is None && e is InvalidArgument,
{
    if eq_ignore_ascii_case(s, "forward") {
        Ok(Direction::Forward)
    } else if eq_ignore_ascii_case(s, "reverse") {
        Ok(Direction::Reverse)
    } else {
        Err(DbError::InvalidArgument)
    }
}

} // verus!
