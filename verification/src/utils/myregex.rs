//! The notations that values of requests and of settings must have.
//!
//! Each notation is given by a pattern. The plain ones are matched here, and
//! said in full by a spec function; the two lists, whose items run into one
//! another, are left to the crate `regex`.

use vstd::prelude::*;

use crate::foreign::{regex_is_match, regex_match};
use crate::text::{chars_of, same_chars, slice_of, split, split_on, rows};

verus! {

/// A list of IPv4 addresses, each followed by at most one blank.
pub const IPV4_LIST: &'static str =
    "^(((25[0-5]|2[0-4][0-9]|1[0-9][0-9]|[0-9]{1,2})(\\.(25[0-5]|2[0-4][0-9]|1[0-9][0-9]|[0-9]{1,2})){3})( ?))*$";

/// A list of absolute paths, each followed by at most one comma.
pub const ABSOLUTE_PATH_LIST: &'static str =
    "^((/{1}(((/{1}\\.{1})?[a-zA-Z0-9 -_]+/?)+(\\.{1}[a-zA-Z0-9]{2,4})?))(,?))*$";

/// Whether `c` is one of `0` to `9`.
pub open spec fn is_digit(c: char) -> bool {
    '0' <= c && c <= '9'
}

/// Whether `c` is a letter of the English alphabet or a digit.
pub open spec fn is_alpha_num(c: char) -> bool {
    ('a' <= c && c <= 'z') || ('A' <= c && c <= 'Z') || is_digit(c)
}

/// Whether `c` is a letter, a digit, a hyphen or an underscore.
pub open spec fn is_name_char(c: char) -> bool {
    is_alpha_num(c) || c == '-' || c == '_'
}

/// `^[a-zA-Z0-9\-_]*$`: letters, digits, hyphens and underscores only.
pub open spec fn is_alpha_num_2(s: Seq<char>) -> bool {
    forall|i: int| 0 <= i < s.len() ==> is_name_char(#[trigger] s[i])
}

/// `^[0-7]{3}$`: the permissions of a file, as three octal digits.
pub open spec fn is_file_permissions(s: Seq<char>) -> bool {
    s.len() == 3 && forall|i: int| 0 <= i < 3 ==> '0' <= #[trigger] s[i] && s[i] <= '7'
}

/// One number of an IPv4 address: one or two digits, or three that read as a
/// number from 100 to 255.
pub open spec fn is_octet(s: Seq<char>) -> bool {
    &&& 1 <= s.len() <= 3
    &&& forall|i: int| 0 <= i < s.len() ==> is_digit(#[trigger] s[i])
    &&& s.len() == 3 ==> s[0] == '1' || (s[0] == '2' && s[1] <= '4') || (s[0] == '2' && s[1]
        == '5' && s[2] <= '5')
}

/// An IPv4 address: four numbers with dots between them.
pub open spec fn is_ipv4(s: Seq<char>) -> bool {
    let parts = split(s, '.');
    parts.len() == 4 && forall|i: int| 0 <= i < 4 ==> is_octet(#[trigger] parts[i])
}

/// The name of a plugin that the agent knows.
pub open spec fn is_plugin_name(s: Seq<char>) -> bool {
    s == "test"@ || s == "openvpn"@ || s == "geoip"@ || s == "crowdsec"@ || s == "ntopng"@ || s
        == "suricata"@ || s == "keepalived"@ || s == "zeek"@ || s == "elasticsearch"@ || s
        == "filebeat"@ || s == "websafety"@ || s == "dnssafety"@ || s == "kibana"@ || s
        == "logstash"@ || s == "isc-bind9"@ || s == "isc-dhcp"@ || s == "haproxy"@
}

/// What can be done to a plugin.
pub open spec fn is_plugin_action(s: Seq<char>) -> bool {
    s == "enable"@ || s == "disable"@
}

/// A command of `systemctl` that the agent passes on.
pub open spec fn is_systemctl_command(s: Seq<char>) -> bool {
    s == "status"@ || s == "start"@ || s == "stop"@ || s == "restart"@ || s == "reload"@ || s
        == "enable"@ || s == "disable"@
}

/// A service that the agent lets `systemctl` act on: one of four by name, or
/// an instance of OpenVPN, `openvpn@` and a name of at least one letter, digit,
/// hyphen or underscore.
pub open spec fn is_systemctl_service(s: Seq<char>) -> bool {
    s == "openvpn"@ || s == "isc-dhcp-server"@ || s == "keepalived"@ || s == "haproxy"@ || (
    "openvpn@"@.is_prefix_of(s) && s.len() > "openvpn@"@.len() && is_alpha_num_2(
        s.skip("openvpn@"@.len() as int),
    ))
}

/// Whether `s` is the text `word`.
fn is_word(s: &Vec<char>, word: &str) -> (same: bool)
    ensures
        same == (s@ == word@),
{
    same_chars(s, &chars_of(word))
}

/// Whether `c` is a letter, a digit, a hyphen or an underscore.
pub fn name_char(c: char) -> (yes: bool)
    ensures
        yes == is_name_char(c),
{
    ('a' <= c && c <= 'z') || ('A' <= c && c <= 'Z') || ('0' <= c && c <= '9') || c == '-' || c
        == '_'
}

/// Whether all of `s` from `from` on is letters, digits, hyphens and
/// underscores.
fn name_chars_from(s: &Vec<char>, from: usize) -> (yes: bool)
    requires
        from <= s.len(),
    ensures
        yes == is_alpha_num_2(s@.skip(from as int)),
{
    let mut i: usize = from;
    while i < s.len()
        invariant
            from <= i <= s.len(),
            forall|j: int| from <= j < i ==> is_name_char(#[trigger] s@[j]),
        decreases s.len() - i,
    {
        if !name_char(s[i]) {
            assert(!is_name_char(s@.skip(from as int)[i - from]));
            return false;
        }
        i += 1;
    }
    assert forall|j: int| 0 <= j < s@.skip(from as int).len() implies is_name_char(
        #[trigger] s@.skip(from as int)[j],
    ) by {
        assert(s@.skip(from as int)[j] == s@[from + j]);
    }
    true
}

/// Whether `s` holds letters, digits, hyphens and underscores only.
pub fn alpha_num_2(s: &str) -> (yes: bool)
    ensures
        yes == is_alpha_num_2(s@),
{
    let chars = chars_of(s);
    assert(chars@.skip(0) =~= chars@);
    name_chars_from(&chars, 0)
}

/// Whether `s` is the permissions of a file, as three octal digits.
pub fn file_permissions(s: &str) -> (yes: bool)
    ensures
        yes == is_file_permissions(s@),
{
    let chars = chars_of(s);
    if chars.len() != 3 {
        return false;
    }
    let mut i: usize = 0;
    while i < 3
        invariant
            i <= 3,
            chars.len() == 3,
            chars@ == s@,
            forall|j: int| 0 <= j < i ==> '0' <= #[trigger] chars@[j] && chars@[j] <= '7',
        decreases 3 - i,
    {
        if !('0' <= chars[i] && chars[i] <= '7') {
            assert(!('0' <= s@[i as int] && s@[i as int] <= '7'));
            return false;
        }
        i += 1;
    }
    true
}

/// Whether `s` is one number of an IPv4 address.
fn octet(s: &Vec<char>) -> (yes: bool)
    ensures
        yes == is_octet(s@),
{
    if s.len() < 1 || s.len() > 3 {
        return false;
    }
    let mut i: usize = 0;
    while i < s.len()
        invariant
            i <= s.len(),
            forall|j: int| 0 <= j < i ==> is_digit(#[trigger] s@[j]),
        decreases s.len() - i,
    {
        if !('0' <= s[i] && s[i] <= '9') {
            return false;
        }
        i += 1;
    }
    if s.len() == 3 {
        s[0] == '1' || (s[0] == '2' && s[1] <= '4') || (s[0] == '2' && s[1] == '5' && s[2] <= '5')
    } else {
        true
    }
}

/// Whether `s` is an IPv4 address.
pub fn ipv4(s: &str) -> (yes: bool)
    ensures
        yes == is_ipv4(s@),
{
    let parts = split_on(&chars_of(s), '.');
    if parts.len() != 4 {
        return false;
    }
    let mut i: usize = 0;
    while i < 4
        invariant
            i <= 4,
            parts.len() == 4,
            rows(parts@) == split(s@, '.'),
            forall|j: int| 0 <= j < i ==> is_octet(#[trigger] split(s@, '.')[j]),
        decreases 4 - i,
    {
        assert(parts[i as int]@ == rows(parts@)[i as int]);
        if !octet(&parts[i]) {
            return false;
        }
        i += 1;
    }
    true
}

/// Whether `s` is the name of a plugin that the agent knows.
pub fn plugins_names(s: &str) -> (yes: bool)
    ensures
        yes == is_plugin_name(s@),
{
    let s = chars_of(s);
    is_word(&s, "test") || is_word(&s, "openvpn") || is_word(&s, "geoip") || is_word(
        &s,
        "crowdsec",
    ) || is_word(&s, "ntopng") || is_word(&s, "suricata") || is_word(&s, "keepalived")
        || is_word(&s, "zeek") || is_word(&s, "elasticsearch") || is_word(&s, "filebeat")
        || is_word(&s, "websafety") || is_word(&s, "dnssafety") || is_word(&s, "kibana")
        || is_word(&s, "logstash") || is_word(&s, "isc-bind9") || is_word(&s, "isc-dhcp")
        || is_word(&s, "haproxy")
}

/// Whether `s` is something that can be done to a plugin.
pub fn plugins_actions(s: &str) -> (yes: bool)
    ensures
        yes == is_plugin_action(s@),
{
    let s = chars_of(s);
    is_word(&s, "enable") || is_word(&s, "disable")
}

/// Whether `s` is a command of `systemctl` that the agent passes on.
pub fn systemctl_commands(s: &str) -> (yes: bool)
    ensures
        yes == is_systemctl_command(s@),
{
    let s = chars_of(s);
    is_word(&s, "status") || is_word(&s, "start") || is_word(&s, "stop") || is_word(
        &s,
        "restart",
    ) || is_word(&s, "reload") || is_word(&s, "enable") || is_word(&s, "disable")
}

/// Whether `s` is a service that the agent lets `systemctl` act on.
pub fn systemctl_services(s: &str) -> (yes: bool)
    ensures
        yes == is_systemctl_service(s@),
{
    let s = chars_of(s);
    if is_word(&s, "openvpn") || is_word(&s, "isc-dhcp-server") || is_word(&s, "keepalived")
        || is_word(&s, "haproxy") {
        return true;
    }
    let tag = chars_of("openvpn@");
    if s.len() <= tag.len() {
        return false;
    }
    let head = slice_of(&s, 0, tag.len());
    assert(head@ == tag@ <==> tag@.is_prefix_of(s@)) by {
        if tag@.is_prefix_of(s@) {
            assert(head@ =~= tag@);
        }
    }
    same_chars(&head, &tag) && name_chars_from(&s, tag.len())
}

/// Whether `s` is a list of IPv4 addresses, each followed by at most one
/// blank; `None` should the pattern be refused.
pub fn ipv4_list(s: &str) -> (yes: Option<bool>)
    ensures
        yes == regex_match(IPV4_LIST@, s@),
{
    regex_is_match(IPV4_LIST, s)
}

/// Whether `s` is a list of absolute paths, each followed by at most one
/// comma; `None` should the pattern be refused.
pub fn absolute_path_list(s: &str) -> (yes: Option<bool>)
    ensures
        yes == regex_match(ABSOLUTE_PATH_LIST@, s@),
{
    regex_is_match(ABSOLUTE_PATH_LIST, s)
}

} // verus!
