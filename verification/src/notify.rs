use vstd::prelude::*;

verus! {

/// Notification urgency, as the desktop notification service understands it.
#[derive(Clone, Copy, PartialEq, Eq, Structural, Debug)]
pub enum Urgency {
    Low,
    Normal,
    Critical,
}

/// What a subsystem wants the user to see: the decision of *whether* and
/// *with what text* to notify, separated from the delivery mechanism.
/// `urgency` of `None` means the channel's default.
pub struct NotifyRequest {
    pub summary: String,
    pub body: String,
    pub urgency: Option<Urgency>,
    pub value: Option<u32>,
}

#[verifier::ext_equal]
pub struct NotifyRequestV {
    pub summary: Seq<char>,
    pub body: Seq<char>,
    pub urgency: Option<Urgency>,
    pub value: Option<u32>,
}

impl DeepView for NotifyRequest {
    type V = NotifyRequestV;

    open spec fn deep_view(&self) -> NotifyRequestV {
        self.view()
    }
}

impl View for NotifyRequest {
    type V = NotifyRequestV;

    open spec fn view(&self) -> NotifyRequestV {
        NotifyRequestV {
            summary: self.summary@,
            body: self.body@,
            urgency: self.urgency,
            value: self.value,
        }
    }
}

} // verus!
