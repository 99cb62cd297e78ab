use vstd::prelude::*;
use vstd::string::*;
use crate::notify::Urgency;
use crate::text;
use crate::text::dec_digits;

verus! {

/// The deduplicated notification channel of one domain. It remembers the
/// identifier of the notification last shown under its key, so the next
/// one replaces it in place instead of stacking; the identifier is
/// persisted under the domain's name with an `.id` suffix.
pub struct Notifier {
    pub key: String,
}

/// Everything the delivery mechanism needs to show one notification.
pub struct ShowRequest {
    pub replaces_id: Option<u32>,
    pub summary: String,
    pub body: String,
    pub urgency: Urgency,
    pub value: Option<u32>,
    pub frcolor: String,
}

#[verifier::ext_equal]
pub struct ShowRequestV {
    pub replaces_id: Option<u32>,
    pub summary: Seq<char>,
    pub body: Seq<char>,
    pub urgency: Urgency,
    pub value: Option<u32>,
    pub frcolor: Seq<char>,
}

impl View for ShowRequest {
    type V = ShowRequestV;

    open spec fn view(&self) -> ShowRequestV {
        ShowRequestV {
            replaces_id: self.replaces_id,
            summary: self.summary@,
            body: self.body@,
            urgency: self.urgency,
            value: self.value,
            frcolor: self.frcolor@,
        }
    }
}

/// What one send amounts to, given whether the compositor runs, the
/// current accent color and the remembered identifier: nothing at all
/// without a compositor; otherwise a replace-in-place request with the
/// default urgency filled in and the accent color as the frame color.
pub open spec fn prepare_spec(
    running: bool,
    color: Seq<char>,
    prev_id: Option<u32>,
    summary: Seq<char>,
    body: Seq<char>,
    urgency: Option<Urgency>,
    value: Option<u32>,
) -> Option<ShowRequestV> {
    if running {
        Some(
            ShowRequestV {
                replaces_id: prev_id,
                summary,
                body,
                urgency: match urgency {
                    Some(u) => u,
                    None => Urgency::Normal,
                },
                value,
                frcolor: "#"@ + color + "ee"@,
            },
        )
    } else {
        None
    }
}

impl Notifier {
    /// The channel of one domain; its identifier record lives under
    /// `<name>.id`.
    pub fn new(name: &str) -> (r: Notifier)
        ensures
            r.key@ == name@ + ".id"@,
    {
        let mut key = name.to_owned();
        key.append(".id");
        Notifier { key }
    }

    /// Decides what to show: the pure half of sending, with delivery left
    /// to the caller.
    pub fn prepare(
        &self,
        running: bool,
        color: &str,
        prev_id: Option<u32>,
        summary: &str,
        body: &str,
        urgency: Option<Urgency>,
        value: Option<u32>,
    ) -> (r: Option<ShowRequest>)
        ensures
            r.deep_view() == prepare_spec(
                running,
                color@,
                prev_id,
                summary@,
                body@,
                urgency,
                value,
            ),
    {
        if !running {
            return None;
        }
        let mut frcolor: String = "#".to_owned();
        frcolor.append(color);
        frcolor.append("ee");
        let r = ShowRequest {
            replaces_id: prev_id,
            summary: summary.to_owned(),
            body: body.to_owned(),
            urgency: match urgency {
                Some(u) => u,
                None => Urgency::Normal,
            },
            value,
            frcolor,
        };
        proof {
            assert(r@ =~= prepare_spec(
                running,
                color@,
                prev_id,
                summary@,
                body@,
                urgency,
                value,
            ).unwrap());
        }
        Some(r)
    }

    /// Reads the remembered identifier back from its record line.
    pub fn read_id(line: &str) -> (r: Option<u32>)
        ensures
            r == text::parse_u32_spec(line@),
    {
        text::parse_u32(line)
    }

    /// The record line that remembers an identifier.
    pub fn record_id(id: u32) -> (r: String)
        ensures
            r@ == dec_digits(id as int),
    {
        text::fmt_u32(id)
    }
}

impl DeepView for ShowRequest {
    type V = ShowRequestV;

    open spec fn deep_view(&self) -> ShowRequestV {
        self.view()
    }
}

} // verus!
