//! Presentation helpers for signatures and timestamps, as the page templates
//! use them.
use crate::model::Ident;
use vstd::prelude::*;

verus! {

/// What the calendar renders for a moment: "%Y-%m-%d %H:%M:%S" at the given
/// UTC offset; a function of the two arguments alone.
pub uninterp spec fn formatted_datetime(seconds: int, offset_minutes: int) -> Seq<char>;

/// Relies on chrono's FixedOffset and timestamp formatting: deterministic
/// calendar arithmetic from seconds and offset. Out-of-range moments and
/// offsets give nothing rather than an answer.
#[verifier::external_body]
pub fn format_datetime(seconds: i64, offset_minutes: i32) -> (r: Option<String>)
    ensures
        r is Some ==> r->Some_0@ == formatted_datetime(seconds as int, offset_minutes as int),
{
    let secs = offset_minutes.checked_mul(60)?;
    let offset = chrono::FixedOffset::west_opt(secs)?;
    match chrono::TimeZone::timestamp_opt(&offset, seconds, 0) {
        chrono::LocalResult::Single(dt) => Some(dt.format("%Y-%m-%d %H:%M:%S").to_string()),
        _ => None,
    }
}

/// A signature rendered for a page: a mailto link around the name when the
/// signature carries an email, the bare name otherwise.
pub fn signature_email_link(sig: &Ident) -> (r: String)
    ensures
        sig.email is Some ==> r@ == "<a href=\"mailto:"@ + sig.email->Some_0@ + "\">"@ + sig.name@
            + "</a>"@,
        sig.email is None ==> r@ == sig.name@,
{
    match &sig.email {
        Some(email) => {
            let mut out = "<a href=\"mailto:".to_owned();
            out.append(email.as_str());
            out.append("\">");
            out.append(sig.name.as_str());
            out.append("</a>");
            out
        },
        None => sig.name.clone(),
    }
}

} // verus!
