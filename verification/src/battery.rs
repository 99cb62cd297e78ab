use vstd::prelude::*;
use vstd::string::*;
use crate::json;
use crate::notify::{NotifyRequest, Urgency};
use crate::text;
use crate::text::dec_digits;

verus! {

/// The battery watcher's pure core: turning a charge reading into a
/// snapshot and deciding when the user must be warned.
pub struct Battery;

/// What the power supply reports about the charge direction.
#[derive(Clone, Copy, PartialEq, Eq, Structural, Debug)]
pub enum ChargeStatus {
    Unknown,
    Charging,
    Discharging,
    Empty,
    Full,
}

/// The status word the record carries. A report of `Unknown` reads as
/// plugged in but not charging.
pub open spec fn status_text(s: ChargeStatus) -> Seq<char> {
    match s {
        ChargeStatus::Unknown => "Not charging"@,
        ChargeStatus::Charging => "Charging"@,
        ChargeStatus::Discharging => "Discharging"@,
        ChargeStatus::Empty => "Empty"@,
        ChargeStatus::Full => "Full"@,
    }
}

/// The icon that stands for a charge state in the status bar.
pub open spec fn icon_of(value: u32, s: ChargeStatus) -> Seq<char> {
    if s is Charging {
        " "@
    } else if s is Full || s is Unknown {
        " "@
    } else if value >= 85 {
        " "@
    } else if value >= 60 {
        " "@
    } else if value >= 40 {
        " "@
    } else if value >= 15 {
        " "@
    } else {
        " "@
    }
}

/// One observation of the battery.
pub struct BatteryState {
    pub value: u32,
    pub status: String,
    pub icon: String,
}

#[verifier::ext_equal]
pub struct BatteryStateV {
    pub value: u32,
    pub status: Seq<char>,
    pub icon: Seq<char>,
}

impl View for BatteryState {
    type V = BatteryStateV;

    open spec fn view(&self) -> BatteryStateV {
        BatteryStateV { value: self.value, status: self.status@, icon: self.icon@ }
    }
}

/// The one battery notification: a high-urgency alert, exactly when the
/// charge is low and nothing is charging it.
pub open spec fn battery_notify_spec(v: BatteryStateV) -> Option<crate::notify::NotifyRequestV> {
    if v.status != "Charging"@ && v.value <= 10 {
        Some(
            crate::notify::NotifyRequestV {
                summary: "Battery very low"@,
                body: "Connect charger"@,
                urgency: Some(Urgency::Critical),
                value: None,
            },
        )
    } else {
        None
    }
}

/// The persisted record of a battery snapshot.
pub open spec fn battery_log_spec(v: BatteryStateV) -> Seq<char> {
    "{\"value\":"@ + dec_digits(v.value as int) + ",\"status\":"@ + json::json_string_spec(v.status)
        + ",\"icon\":"@ + json::json_string_spec(v.icon) + "}"@
}

impl BatteryState {
    /// Builds the snapshot; status word and icon follow from the reading.
    pub fn new(value: u32, state: ChargeStatus) -> (r: BatteryState)
        ensures
            r@.value == value,
            r@.status == status_text(state),
            r@.icon == icon_of(value, state),
    {
        let icon: String = if matches!(state, ChargeStatus::Charging) {
            " ".to_owned()
        } else if matches!(state, ChargeStatus::Full) || matches!(state, ChargeStatus::Unknown) {
            " ".to_owned()
        } else if value >= 85 {
            " ".to_owned()
        } else if value >= 60 {
            " ".to_owned()
        } else if value >= 40 {
            " ".to_owned()
        } else if value >= 15 {
            " ".to_owned()
        } else {
            " ".to_owned()
        };
        let status: String = match state {
            ChargeStatus::Unknown => "Not charging".to_owned(),
            ChargeStatus::Charging => "Charging".to_owned(),
            ChargeStatus::Discharging => "Discharging".to_owned(),
            ChargeStatus::Empty => "Empty".to_owned(),
            ChargeStatus::Full => "Full".to_owned(),
        };
        BatteryState { value, status, icon }
    }

    /// Structural equality of two snapshots, the transition test.
    pub fn same_as(&self, other: &BatteryState) -> (r: bool)
        ensures
            r == (self@ == other@),
    {
        let r = self.value == other.value && self.status == other.status && self.icon
            == other.icon;
        proof {
            if r {
                assert(self@ =~= other@);
            }
        }
        r
    }

    /// The alert this state calls for, if any: the battery is nearly empty
    /// and not being charged.
    pub fn notify(&self) -> (r: Option<NotifyRequest>)
        ensures
            r.deep_view() == battery_notify_spec(self@),
    {
        let charging = text::str_eq(self.status.as_str(), "Charging");
        let r: Option<NotifyRequest> = if !charging && self.value <= 10 {
            Some(
                NotifyRequest {
                    summary: "Battery very low".to_owned(),
                    body: "Connect charger".to_owned(),
                    urgency: Some(Urgency::Critical),
                    value: None,
                },
            )
        } else {
            None
        };
        proof {
            match &r {
                Some(req) => {
                    assert(req@ =~= battery_notify_spec(self@).unwrap());
                },
                None => {
                },
            }
        }
        r
    }

    /// The record line to persist for this state.
    pub fn log(&self) -> (r: String)
        ensures
            r@ == battery_log_spec(self@),
    {
        let mut s: String = "{\"value\":".to_owned();
        s.append(text::fmt_u32(self.value).as_str());
        s.append(",\"status\":");
        s.append(json::json_string(self.status.as_str()).as_str());
        s.append(",\"icon\":");
        s.append(json::json_string(self.icon.as_str()).as_str());
        s.append("}");
        proof {
            assert(s@ =~= battery_log_spec(self@));
        }
        s
    }
}

} // verus!
