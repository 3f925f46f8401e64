//! Lab inspection: who may inspect a lab, and the VNC port of a domain from
//! its XML definition.
use crate::auth::context::AuthContext;
use crate::services::destroy::{not_owner_error, not_owner_message};
use crate::text::{chars_of, parse_i32, parse_i32_spec};
use vstd::prelude::*;

verus! {

/// The pattern of a VNC `<graphics>` element with its port in the first group.
pub const VNC_PORT_PATTERN: &'static str =
    "<graphics[^>]*type=['\"]\\s*vnc\\s*['\"][^>]*port=['\"]\\s*(\\d+)\\s*['\"]([\\s\\S]*?)/>";

/// The text of capture group `group` of the first match of regular expression
/// `pattern` in `text`, as the regex library finds it (`None` when the pattern
/// is invalid, nothing matches, or the group did not take part).
pub uninterp spec fn spec_regex_group(pattern: Seq<char>, text: Seq<char>, group: usize) -> Option<Seq<char>>;

/// `regex::Regex::new(pattern)` then `captures(text)` and `get(group)`.
#[verifier::external_body]
fn regex_group(pattern: &str, text: &str, group: usize) -> (r: Option<String>)
    ensures
        match r {
            Some(s) => spec_regex_group(pattern@, text@, group) == Some(s@),
            None => spec_regex_group(pattern@, text@, group) is None,
        },
{
    let re = match regex::Regex::new(pattern) {
        Ok(re) => re,
        Err(_) => return None,
    };
    match re.captures(text) {
        Some(caps) => match caps.get(group) {
            Some(m) => Some(m.as_str().to_string()),
            None => None,
        },
        None => None,
    }
}

/// The VNC port of a domain given the port text the pattern captured: a
/// positive integer, or nothing.
pub open spec fn vnc_port_of(captured: Option<Seq<char>>) -> Option<i32> {
    match captured {
        Some(t) => match parse_i32_spec(t) {
            Some(p) => if p > 0 {
                Some(p)
            } else {
                None
            },
            None => None,
        },
        None => None,
    }
}

/// The VNC port from the captured port text.
pub fn vnc_port_from_capture(captured: Option<&str>) -> (r: Option<i32>)
    ensures
        r == vnc_port_of(
            match captured {
                Some(t) => Some(t@),
                None => None,
            },
        ),
{
    match captured {
        None => None,
        Some(t) => {
            let v = chars_of(t);
            assert(v@.subrange(0, v@.len() as int) == v@);
            match parse_i32(&v, 0, v.len()) {
                Some(p) => if p > 0 {
                    Some(p)
                } else {
                    None
                },
                None => None,
            }
        },
    }
}

/// Extracts the VNC port from a libvirt domain's XML definition.
pub fn extract_vnc_port(domain_xml: &str) -> (r: Option<i32>)
    ensures
        r == vnc_port_of(spec_regex_group(VNC_PORT_PATTERN@, domain_xml@, 1)),
{
    match regex_group(VNC_PORT_PATTERN, domain_xml, 1) {
        Some(s) => vnc_port_from_capture(Some(s.as_str())),
        None => vnc_port_from_capture(None),
    }
}

/// The ownership check of a lab inspection: the lab's owner and admins may
/// inspect it; anyone else is refused with a permission error.
pub fn check_inspect_permission(ctx: &AuthContext, lab_owner: &str, lab_id: &str) -> (r: Result<
    (),
    String,
>)
    ensures
        r is Ok <==> ctx.allows(lab_owner@),
        r matches Err(e) ==> e@ == not_owner_message(lab_id@),
{
    if ctx.can_access(lab_owner) {
        Ok(())
    } else {
        Err(not_owner_error(lab_id))
    }
}

} // verus!
