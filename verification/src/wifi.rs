use vstd::prelude::*;
use vstd::string::*;
use crate::json;
use crate::notify::NotifyRequest;
use crate::text;
use crate::text::{all_digits, dec_val, split_ch};

verus! {

/// The network-link watcher's pure core: reading the scan output and
/// deciding what a transition means.
pub struct Wifi;

/// The icon that stands for a link state in the status bar.
pub open spec fn icon_of(active: bool, signal: u32) -> Seq<char> {
    if !active {
        "󰤭 "@
    } else if signal >= 75 {
        "󰤨 "@
    } else if signal >= 50 {
        "󰤥 "@
    } else if signal >= 25 {
        "󰤢 "@
    } else {
        "󰤟 "@
    }
}

/// One observation of the network link.
pub struct WifiState {
    pub active: bool,
    pub ssid: String,
    pub icon: String,
}

#[verifier::ext_equal]
pub struct WifiStateV {
    pub active: bool,
    pub ssid: Seq<char>,
    pub icon: Seq<char>,
}

impl View for WifiState {
    type V = WifiStateV;

    open spec fn view(&self) -> WifiStateV {
        WifiStateV { active: self.active, ssid: self.ssid@, icon: self.icon@ }
    }
}

// ---------------------------------------------------------------------------
// Reading the scan output
// ---------------------------------------------------------------------------

/// A scan row reports an active link when its first field says so.
pub open spec fn row_active(row: Seq<char>) -> bool {
    split_ch(row, ':')[0] == "yes"@
}

/// The row's network name, its second field; a row too short has none.
pub open spec fn row_ssid(row: Seq<char>) -> Seq<char> {
    let f = split_ch(row, ':');
    if f.len() >= 2 {
        f[1]
    } else {
        Seq::<char>::empty()
    }
}

/// The row's signal strength, its third field; anything unreadable, and a
/// row too short, count as zero.
pub open spec fn row_signal(row: Seq<char>) -> u32 {
    let f = split_ch(row, ':');
    if f.len() >= 3 && f[2].len() >= 1 && all_digits(f[2]) && dec_val(f[2]) <= u32::MAX {
        dec_val(f[2]) as u32
    } else {
        0
    }
}

/// The first row that reports an active link, from `i` on.
pub open spec fn first_active(rows: Seq<Seq<char>>, i: int) -> Option<int>
    recommends
        0 <= i,
    decreases rows.len() - i,
{
    if i < 0 || i >= rows.len() {
        None
    } else if row_active(rows[i]) {
        Some(i)
    } else {
        first_active(rows, i + 1)
    }
}

/// The state the whole scan output means: the first active row's name and
/// signal, or the inactive default.
pub open spec fn get_state_spec(out: Seq<char>) -> WifiStateV {
    let rows = split_ch(out, '\n');
    match first_active(rows, 0) {
        Some(i) => WifiStateV {
            active: true,
            ssid: row_ssid(rows[i]),
            icon: icon_of(true, row_signal(rows[i])),
        },
        None => WifiStateV {
            active: false,
            ssid: Seq::<char>::empty(),
            icon: icon_of(false, 0),
        },
    }
}

impl Wifi {
    /// Reads the link state out of the terse scan output: one row per
    /// network, colon-separated fields `active:ssid:signal`, the first
    /// active row wins; with none, the link is down.
    pub fn get_state(output: &str) -> (r: WifiState)
        ensures
            r@ == get_state_spec(output@),
    {
        let rows = text::split_str(output, '\n');
        let ghost rowsv = rows.deep_view();
        let n: usize = rows.len();
        let mut i: usize = 0;
        while i < n
            invariant
                0 <= i <= n,
                n == rowsv.len(),
                rowsv == split_ch(output@, '\n'),
                rows.deep_view() == rowsv,
                first_active(rowsv, 0) == first_active(rowsv, i as int),
            decreases n - i,
        {
            proof {
                assert(rowsv[i as int] == rows@[i as int]@);
            }
            let fields = text::split_str(rows[i].as_str(), ':');
            proof {
                text::lemma_split_len(rows@[i as int]@, ':');
                assert(fields.deep_view()[0] == fields@[0]@);
            }
            if text::str_eq(fields[0].as_str(), "yes") {
                let ssid: String = if fields.len() >= 2 {
                    proof {
                        assert(fields.deep_view()[1] == fields@[1]@);
                    }
                    fields[1].as_str().to_owned()
                } else {
                    String::new()
                };
                let signal: u32 = if fields.len() >= 3 {
                    proof {
                        assert(fields.deep_view()[2] == fields@[2]@);
                    }
                    match text::parse_u32(fields[2].as_str()) {
                        Some(v) => v,
                        None => 0,
                    }
                } else {
                    0
                };
                let r = WifiState::new(true, ssid.as_str(), signal);
                proof {
                    assert(row_active(rowsv[i as int]));
                    assert(r@ =~= get_state_spec(output@));
                }
                return r;
            }
            proof {
                assert(!row_active(rowsv[i as int]));
            }
            i = i + 1;
        }
        let r = WifiState::new(false, "", 0);
        proof {
            reveal_strlit("");
            assert(first_active(rowsv, n as int) is None);
            assert(r@ =~= get_state_spec(output@));
        }
        r
    }
}

// ---------------------------------------------------------------------------
// The link snapshot
// ---------------------------------------------------------------------------

/// What one link notification says, given the previous snapshot: one
/// message on the edge into a connection, one on the edge out of it, and
/// nothing while nothing changed.
pub open spec fn wifi_notify_spec(v: WifiStateV, prev: Option<WifiStateV>) -> Option<
    crate::notify::NotifyRequestV,
> {
    let prev_active = match prev {
        Some(p) => p.active,
        None => false,
    };
    if v.active && !prev_active {
        Some(
            crate::notify::NotifyRequestV {
                summary: "Wi-Fi"@,
                body: "Connected to '"@ + v.ssid + "'"@,
                urgency: None,
                value: None,
            },
        )
    } else if !v.active && prev_active {
        Some(
            crate::notify::NotifyRequestV {
                summary: "Wi-Fi"@,
                body: "Disconnected from '"@ + (match prev {
                    Some(p) => p.ssid,
                    None => Seq::<char>::empty(),
                }) + "'"@,
                urgency: None,
                value: None,
            },
        )
    } else {
        None
    }
}

/// The persisted record of a link snapshot.
pub open spec fn wifi_log_spec(v: WifiStateV) -> Seq<char> {
    "{\"active\":"@ + json::bool_text(v.active) + ",\"ssid\":"@ + json::json_string_spec(v.ssid)
        + ",\"icon\":"@ + json::json_string_spec(v.icon) + "}"@
}

impl WifiState {
    /// Builds the snapshot; the icon follows from activity and signal.
    pub fn new(active: bool, ssid: &str, signal: u32) -> (r: WifiState)
        ensures
            r@.active == active,
            r@.ssid == ssid@,
            r@.icon == icon_of(active, signal),
    {
        let icon: String = if !active {
            "󰤭 ".to_owned()
        } else if signal >= 75 {
            "󰤨 ".to_owned()
        } else if signal >= 50 {
            "󰤥 ".to_owned()
        } else if signal >= 25 {
            "󰤢 ".to_owned()
        } else {
            "󰤟 ".to_owned()
        };
        WifiState { active, ssid: ssid.to_owned(), icon }
    }

    /// Structural equality of two snapshots, the transition test.
    pub fn same_as(&self, other: &WifiState) -> (r: bool)
        ensures
            r == (self@ == other@),
    {
        let r = self.active == other.active && self.ssid == other.ssid && self.icon == other.icon;
        proof {
            if r {
                assert(self@ =~= other@);
            }
        }
        r
    }

    /// What to tell the user, given the snapshot this one replaced.
    pub fn notify(&self, prev: Option<&WifiState>) -> (r: Option<NotifyRequest>)
        ensures
            r.deep_view() == wifi_notify_spec(
                self@,
                match prev {
                    Some(p) => Some(p@),
                    None => None,
                },
            ),
    {
        let prev_active = match prev {
            Some(p) => p.active,
            None => false,
        };
        let r: Option<NotifyRequest> = if self.active && !prev_active {
            let mut body: String = "Connected to '".to_owned();
            body.append(self.ssid.as_str());
            body.append("'");
            Some(
                NotifyRequest { summary: "Wi-Fi".to_owned(), body, urgency: None, value: None },
            )
        } else if !self.active && prev_active {
            let mut body: String = "Disconnected from '".to_owned();
            match prev {
                Some(p) => {
                    body.append(p.ssid.as_str());
                },
                None => {
                },
            }
            body.append("'");
            Some(
                NotifyRequest { summary: "Wi-Fi".to_owned(), body, urgency: None, value: None },
            )
        } else {
            None
        };
        proof {
            let pv = match prev {
                Some(p) => Some(p@),
                None => None,
            };
            match &r {
                Some(req) => {
                    assert(req@ =~= wifi_notify_spec(self@, pv).unwrap());
                },
                None => {
                },
            }
        }
        r
    }

    /// The record line to persist for this state.
    pub fn log(&self) -> (r: String)
        ensures
            r@ == wifi_log_spec(self@),
    {
        let mut s: String = "{\"active\":".to_owned();
        s.append(json::bool_str(self.active));
        s.append(",\"ssid\":");
        s.append(json::json_string(self.ssid.as_str()).as_str());
        s.append(",\"icon\":");
        s.append(json::json_string(self.icon.as_str()).as_str());
        s.append("}");
        proof {
            assert(s@ =~= wifi_log_spec(self@));
        }
        s
    }
}

} // verus!
