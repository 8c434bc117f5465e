//! The checks every start request must pass.
//!
//! Addresses are checked against the verified IP grammar and the port
//! policy; served paths are checked against a snapshot of what the
//! filesystem reports and a deny-list of sensitive roots; per-request file
//! paths are checked lexically against traversal attacks.

use vstd::prelude::*;
use vstd::string::*;

use crate::errors::QuickServeError;
use crate::ip::is_valid_ip_text;
use crate::ip::valid_ip_text;
use crate::ip::valid_ipv4;

verus! {

/// Is `c` one of the blank characters that are stripped from an address
/// before the emptiness check?
pub open spec fn is_space(c: char) -> bool {
    c == ' ' || c == '\t' || c == '\n' || c == '\r' || c == '\u{b}' || c == '\u{c}'
}

/// A string that holds nothing but blanks.
pub open spec fn is_blank(s: Seq<char>) -> bool {
    forall|i: int| 0 <= i < s.len() ==> is_space(s[i])
}

/// A syntactically valid bind address: a dotted-quad IPv4 literal, or a
/// bracketed IPv6 literal as a socket address writes it.
pub open spec fn valid_ip_literal(s: Seq<char>) -> bool {
    valid_ip_text(s)
}

/// The port policy: ports below 1024 ask for elevated privilege and are
/// rejected early, except for the explicit allow-set {80, 443}.
pub open spec fn port_allowed(port: u16) -> bool {
    port == 80 || port == 443 || port >= 1024
}

/// The whole address check: a non-zero unprivileged (or explicitly allowed)
/// port and a syntactically valid IP literal.
pub open spec fn addr_ok(ip: Seq<char>, port: u16) -> bool {
    &&& port != 0
    &&& port_allowed(port)
    &&& valid_ip_literal(ip)
}

/// Decides whether `s` holds nothing but blanks.
#[verifier::loop_isolation(false)]
fn str_is_blank(s: &str) -> (r: bool)
    ensures
        r == is_blank(s@),
{
    let n = s.unicode_len();
    let mut i: usize = 0;
    while i < n
        invariant
            i <= n,
            forall|k: int| 0 <= k < i ==> is_space(s@[k]),
        decreases n - i,
    {
        let c = s.get_char(i);
        if !(c == ' ' || c == '\t' || c == '\n' || c == '\r' || c == '\u{b}' || c == '\u{c}') {
            return false;
        }
        i = i + 1;
    }
    true
}

/// Every character of every piece of `split_go` comes from `s` or from
/// `cur`, so splitting an all-blank string yields all-blank pieces.
proof fn lemma_split_go_blank(s: Seq<char>, sep: char, cur: Seq<char>)
    requires
        forall|i: int| 0 <= i < s.len() ==> is_space(s[i]),
        forall|i: int| 0 <= i < cur.len() ==> is_space(cur[i]),
    ensures
        forall|k: int, i: int|
            0 <= k < crate::ip::split_go(s, sep, cur).len() && 0 <= i < crate::ip::split_go(
                s,
                sep,
                cur,
            )[k].len() ==> is_space(crate::ip::split_go(s, sep, cur)[k][i]),
    decreases s.len(),
{
    let parts = crate::ip::split_go(s, sep, cur);
    if s.len() == 0 {
        assert(parts == seq![cur]);
        assert(parts[0] == cur);
    } else if s[0] == sep {
        assert(forall|i: int| 0 <= i < s.skip(1).len() ==> s.skip(1)[i] == s[i + 1]);
        lemma_split_go_blank(s.skip(1), sep, Seq::empty());
        let rec = crate::ip::split_go(s.skip(1), sep, Seq::empty());
        assert(parts == seq![cur] + rec);
        assert(parts[0] == cur);
        assert(forall|k: int| 1 <= k < parts.len() ==> parts[k] == rec[k - 1]);
    } else {
        assert(forall|i: int| 0 <= i < s.skip(1).len() ==> s.skip(1)[i] == s[i + 1]);
        assert(forall|i: int|
            0 <= i < cur.push(s[0]).len() ==> is_space(cur.push(s[0])[i]));
        lemma_split_go_blank(s.skip(1), sep, cur.push(s[0]));
        assert(parts == crate::ip::split_go(s.skip(1), sep, cur.push(s[0])));
    }
}

/// A blank string is never a valid IP literal.
pub proof fn lemma_blank_not_ip(s: Seq<char>)
    requires
        is_blank(s),
    ensures
        !valid_ip_literal(s),
{
    if valid_ipv4(s) {
        let parts = crate::ip::split_on(s, '.');
        lemma_split_go_blank(s, '.', Seq::empty());
        assert(crate::ip::valid_octet(parts[0]));
        assert(crate::ip::is_digit(parts[0][0]));
        assert(is_space(parts[0][0]));
    }
    if s.len() >= 2 && s[0] == '[' {
        assert(is_space(s[0]));
    }
}

/// The message with which `validate_ip_port` rejects, naming the first
/// failing check.
pub open spec fn addr_reject_message(ip: Seq<char>, port: u16) -> Seq<char> {
    if is_blank(ip) {
        "IP address cannot be empty"@
    } else if port == 0 {
        "Port cannot be 0"@
    } else if !port_allowed(port) {
        "Ports below 1024 require root privileges"@
    } else {
        "Invalid IP:PORT format"@
    }
}

/// Validates an IP address and port combination.
///
/// Accepts exactly the addresses of `addr_ok`: a syntactically valid IP
/// literal together with a non-zero port that is either unprivileged or one
/// of the allowed standard ports 80 and 443.  Each rejection names the
/// first check that failed.
pub fn validate_ip_port(ip: &str, port: u16) -> (r: Result<(), QuickServeError>)
    ensures
        r is Ok <==> addr_ok(ip@, port),
        r matches Err(e) ==> e matches QuickServeError::Validation(m) && m@ == addr_reject_message(
            ip@,
            port,
        ),
{
    if str_is_blank(ip) {
        proof {
            lemma_blank_not_ip(ip@);
        }
        return Err(QuickServeError::validation("IP address cannot be empty"));
    }
    if port == 0 {
        return Err(QuickServeError::validation("Port cannot be 0"));
    }
    if port < 1024 && port != 80 && port != 443 {
        return Err(QuickServeError::validation("Ports below 1024 require root privileges"));
    }
    if !is_valid_ip_text(ip) {
        return Err(QuickServeError::validation("Invalid IP:PORT format"));
    }
    Ok(())
}

/// What the filesystem reports about a served path: the path text together
/// with whether it exists, names a directory, and can be read.  The caller
/// at the boundary fills this snapshot in; the checks decide on it.
#[derive(Clone, Debug)]
pub struct PathStat {
    /// The path as given by the caller.
    pub path: String,
    /// Whether the path exists.
    pub exists: bool,
    /// Whether the path names a directory.
    pub is_dir: bool,
    /// Whether the directory can be read.
    pub readable: bool,
}

/// Does `a` match `b` up to ASCII case, where `b` is already lower-case?
pub open spec fn lower_eq(a: char, b: char) -> bool {
    a == b || (97 <= b as u32 <= 122 && a as u32 + 32 == b as u32)
}

/// Does `s` start with the lower-case prefix `p`, comparing without ASCII
/// case?
pub open spec fn ci_prefix(s: Seq<char>, p: Seq<char>) -> bool {
    s.len() >= p.len() && forall|i: int| 0 <= i < p.len() ==> lower_eq(s[i], p[i])
}

/// Is the path under one of the sensitive roots that must never be served?
pub open spec fn is_sensitive(s: Seq<char>) -> bool {
    ||| ci_prefix(s, "/etc"@)
    ||| ci_prefix(s, "/sys"@)
    ||| ci_prefix(s, "/proc"@)
    ||| ci_prefix(s, "/dev"@)
    ||| ci_prefix(s, "/root"@)
    ||| ci_prefix(s, "/boot"@)
}

/// The whole served-path check over a filesystem snapshot.
pub open spec fn path_ok(stat: PathStat) -> bool {
    &&& stat.exists
    &&& stat.is_dir
    &&& stat.readable
    &&& !is_sensitive(stat.path@)
}

/// Decides whether `s` starts with the lower-case `p` up to ASCII case.
#[verifier::loop_isolation(false)]
fn starts_with_ci(s: &str, p: &str) -> (r: bool)
    ensures
        r == ci_prefix(s@, p@),
{
    let pn = p.unicode_len();
    let sn = s.unicode_len();
    if sn < pn {
        return false;
    }
    let mut i: usize = 0;
    while i < pn
        invariant
            i <= pn,
            sn >= pn,
            forall|k: int| 0 <= k < i ==> lower_eq(s@[k], p@[k]),
        decreases pn - i,
    {
        let a = s.get_char(i);
        let b = p.get_char(i);
        let au = a as u32;
        let bu = b as u32;
        if !(a == b || (97 <= bu && bu <= 122 && au + 32 == bu)) {
            return false;
        }
        i = i + 1;
    }
    true
}

/// Decides `is_sensitive`.
fn path_is_sensitive(s: &str) -> (r: bool)
    ensures
        r == is_sensitive(s@),
{
    starts_with_ci(s, "/etc") || starts_with_ci(s, "/sys") || starts_with_ci(s, "/proc")
        || starts_with_ci(s, "/dev") || starts_with_ci(s, "/root") || starts_with_ci(s, "/boot")
}

/// Builds an error message from a fixed prefix and the offending path.
fn message_with_path(prefix: &str, path: &str) -> (r: String)
    ensures
        r@ == prefix@ + path@,
{
    let mut m = String::from_str(prefix);
    m.append(path);
    m
}

/// The message with which `validate_path` rejects, naming the first
/// failing check and the path.
pub open spec fn path_reject_message(stat: PathStat) -> Seq<char> {
    if !stat.exists {
        "Path does not exist: "@ + stat.path@
    } else if !stat.is_dir {
        "Path is not a directory: "@ + stat.path@
    } else if !stat.readable {
        "Cannot read directory: "@ + stat.path@
    } else {
        "Cannot serve from sensitive directory: "@ + stat.path@
    }
}

/// Validates a directory path for serving.
///
/// The snapshot must say that the path exists, names a directory and is
/// readable, and the path must not lie under a sensitive root.  Each
/// rejection names the first check that failed and the path.
pub fn validate_path(stat: &PathStat) -> (r: Result<(), QuickServeError>)
    ensures
        r is Ok <==> path_ok(*stat),
        r matches Err(e) ==> e matches QuickServeError::Validation(m) && m@ == path_reject_message(
            *stat,
        ),
{
    if !stat.exists {
        return Err(
            QuickServeError::Validation(message_with_path("Path does not exist: ", stat.path.as_str())),
        );
    }
    if !stat.is_dir {
        return Err(
            QuickServeError::Validation(
                message_with_path("Path is not a directory: ", stat.path.as_str()),
            ),
        );
    }
    if !stat.readable {
        return Err(
            QuickServeError::Validation(
                message_with_path("Cannot read directory: ", stat.path.as_str()),
            ),
        );
    }
    if path_is_sensitive(stat.path.as_str()) {
        return Err(
            QuickServeError::Validation(
                message_with_path("Cannot serve from sensitive directory: ", stat.path.as_str()),
            ),
        );
    }
    Ok(())
}

/// A rejected path can never pass the checks, and a fresh readable directory
/// outside the sensitive roots always does.
pub proof fn lemma_path_validation(stat: PathStat)
    ensures
        !stat.exists || !stat.is_dir ==> !path_ok(stat),
        stat.exists && stat.is_dir && stat.readable && !is_sensitive(stat.path@) ==> path_ok(stat),
{
}

/// A zero port always fails the address check; every valid address with an
/// acceptable port passes it.
pub proof fn lemma_address_validation(ip: Seq<char>, port: u16)
    ensures
        valid_ip_literal(ip) && port != 0 && port_allowed(port) ==> addr_ok(ip, port),
        port == 0 ==> !addr_ok(ip, port),
{
}

/// A parent-directory segment `..` stands at position `i` of the requested
/// path: two dots delimited by separators or by the ends of the string.
pub open spec fn parent_at(s: Seq<char>, i: int) -> bool {
    &&& 0 <= i
    &&& i + 2 <= s.len()
    &&& s[i] == '.'
    &&& s[i + 1] == '.'
    &&& (i == 0 || s[i - 1] == '/')
    &&& (i + 2 == s.len() || s[i + 2] == '/')
}

/// The requested path holds a parent-directory segment somewhere.
pub open spec fn has_parent_segment(s: Seq<char>) -> bool {
    exists|i: int| parent_at(s, i)
}

/// The requested path holds a doubled separator somewhere.
pub open spec fn has_doubled_separator(s: Seq<char>) -> bool {
    exists|i: int| 0 <= i && i + 1 < s.len() && #[trigger] s[i] == '/' && s[i + 1] == '/'
}

/// The requested path holds a null byte somewhere.
pub open spec fn has_null(s: Seq<char>) -> bool {
    exists|i: int| 0 <= i < s.len() && s[i] == '\0'
}

/// The requested path is absolute.
pub open spec fn is_absolute(s: Seq<char>) -> bool {
    s.len() > 0 && s[0] == '/'
}

/// A requested path that is safe to resolve under a base directory: no
/// parent-directory segment, no doubled separator, relative, and free of
/// null bytes.
pub open spec fn request_ok(s: Seq<char>) -> bool {
    &&& !has_parent_segment(s)
    &&& !has_doubled_separator(s)
    &&& !is_absolute(s)
    &&& !has_null(s)
}

/// The base directory and the requested path joined with exactly one
/// separator between them.
pub open spec fn joined_path(base: Seq<char>, req: Seq<char>) -> Seq<char> {
    if base.len() > 0 && base[base.len() - 1] == '/' {
        base + req
    } else {
        base + "/"@ + req
    }
}

/// Decides `has_parent_segment`.
#[verifier::loop_isolation(false)]
fn contains_parent_segment(s: &str) -> (r: bool)
    ensures
        r == has_parent_segment(s@),
{
    let n = s.unicode_len();
    let mut i: usize = 0;
    while n >= 2 && i <= n - 2
        invariant
            i <= n,
            forall|k: int| k < i ==> !parent_at(s@, k),
        decreases n - i,
    {
        if s.get_char(i) == '.' && s.get_char(i + 1) == '.' && (i == 0 || s.get_char(i - 1) == '/')
            && (i + 2 == n || s.get_char(i + 2) == '/') {
            proof {
                assert(parent_at(s@, i as int));
            }
            return true;
        }
        proof {
            assert(!parent_at(s@, i as int));
        }
        i = i + 1;
    }
    proof {
        assert(forall|k: int| k >= i ==> !(k + 2 <= s@.len()) ==> !parent_at(s@, k));
    }
    false
}

/// Decides `has_doubled_separator`.
#[verifier::loop_isolation(false)]
fn contains_doubled_separator(s: &str) -> (r: bool)
    ensures
        r == has_doubled_separator(s@),
{
    let n = s.unicode_len();
    let mut i: usize = 0;
    while n >= 2 && i <= n - 2
        invariant
            i <= n,
            forall|k: int| k < i ==> !(0 <= k && k + 1 < s@.len() && #[trigger] s@[k] == '/' && s@[k
                + 1] == '/'),
        decreases n - i,
    {
        if s.get_char(i) == '/' && s.get_char(i + 1) == '/' {
            return true;
        }
        i = i + 1;
    }
    false
}

/// Decides `has_null`.
#[verifier::loop_isolation(false)]
fn contains_null(s: &str) -> (r: bool)
    ensures
        r == has_null(s@),
{
    let n = s.unicode_len();
    let mut i: usize = 0;
    while i < n
        invariant
            i <= n,
            forall|k: int| 0 <= k < i ==> s@[k] != '\0',
        decreases n - i,
    {
        if s.get_char(i) == '\0' {
            return true;
        }
        i = i + 1;
    }
    false
}

/// Validates a file path for security against path traversal attacks.
///
/// Accepts exactly the requested paths of `request_ok` and returns the
/// base directory and the requested path joined with one separator; each
/// rejection names the offending shape of the request.
pub fn validate_file_path(base_path: &str, requested_path: &str) -> (r: Result<
    String,
    QuickServeError,
>)
    ensures
        r is Ok <==> request_ok(requested_path@),
        r matches Ok(p) ==> p@ == joined_path(base_path@, requested_path@),
        r matches Err(e) ==> e matches QuickServeError::Validation(m) && m@ == (
        if has_parent_segment(requested_path@) || has_doubled_separator(requested_path@) {
            "Path traversal attempt detected"@
        } else if is_absolute(requested_path@) {
            "Absolute paths are not allowed"@
        } else {
            "Null bytes in path are not allowed"@
        }),
{
    if contains_parent_segment(requested_path) || contains_doubled_separator(requested_path) {
        return Err(QuickServeError::validation("Path traversal attempt detected"));
    }
    if requested_path.unicode_len() > 0 && requested_path.get_char(0) == '/' {
        return Err(QuickServeError::validation("Absolute paths are not allowed"));
    }
    if contains_null(requested_path) {
        return Err(QuickServeError::validation("Null bytes in path are not allowed"));
    }
    let bn = base_path.unicode_len();
    let mut full = String::from_str(base_path);
    if !(bn > 0 && base_path.get_char(bn - 1) == '/') {
        full.append("/");
    }
    full.append(requested_path);
    Ok(full)
}

/// The path ending in a separator, appended if it is missing.
pub open spec fn with_trailing_slash(p: Seq<char>) -> Seq<char> {
    if p.len() > 0 && p[p.len() - 1] == '/' {
        p
    } else {
        p + "/"@
    }
}

/// The result of `with_trailing_slash` does end with a separator.
pub proof fn lemma_with_trailing_slash(p: Seq<char>)
    ensures
        with_trailing_slash(p).len() > 0,
        with_trailing_slash(p)[with_trailing_slash(p).len() - 1] == '/',
{
    reveal_strlit("/");
    if !(p.len() > 0 && p[p.len() - 1] == '/') {
        assert((p + "/"@).len() == p.len() + 1);
        assert((p + "/"@)[p.len() as int] == "/"@[0]);
    }
}

/// Ensures a path ends with a trailing slash.
pub fn ensure_trailing_slash(path: &str) -> (r: String)
    ensures
        r@ == with_trailing_slash(path@),
{
    let n = path.unicode_len();
    if n > 0 && path.get_char(n - 1) == '/' {
        String::from_str(path)
    } else {
        let mut p = String::from_str(path);
        p.append("/");
        p
    }
}

} // verus!
