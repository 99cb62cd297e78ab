use vstd::prelude::*;
use vstd::string::*;
use vstd::multiset::Multiset;
use rand::RngExt;
use crate::json;
use crate::text;

verus! {

broadcast use vstd::seq_lib::group_to_multiset_ensures;

/// The compositor subsystem: workspace bookkeeping, the accent color
/// rotation, and the keyboard layout, each as a pure decision over what the
/// compositor reported.
pub struct Hypr;

/// A keyboard layout the compositor can be switched to.
#[derive(Clone, Copy, PartialEq, Eq, Structural, Debug)]
pub enum Layout {
    Fr,
    Us,
}

/// The layout's wire word, which is also what the compositor keyword takes.
pub open spec fn layout_word(l: Layout) -> Seq<char> {
    match l {
        Layout::Fr => "fr"@,
        Layout::Us => "us"@,
    }
}

/// The layout's persisted record, the variant name as a JSON string.
pub open spec fn layout_record(l: Layout) -> Seq<char> {
    match l {
        Layout::Fr => "\"Fr\""@,
        Layout::Us => "\"Us\""@,
    }
}

pub open spec fn parse_layout_spec(w: Seq<char>) -> Option<Layout> {
    if w == "fr"@ {
        Some(Layout::Fr)
    } else if w == "us"@ {
        Some(Layout::Us)
    } else {
        None
    }
}

impl Layout {
    /// Reads a layout word.
    pub fn parse(w: &str) -> (r: Option<Layout>)
        ensures
            r == parse_layout_spec(w@),
    {
        if text::str_eq(w, "fr") {
            Some(Layout::Fr)
        } else if text::str_eq(w, "us") {
            Some(Layout::Us)
        } else {
            None
        }
    }

    /// Writes the layout word.
    pub fn text(&self) -> (r: String)
        ensures
            r@ == layout_word(*self),
    {
        match self {
            Layout::Fr => "fr".to_owned(),
            Layout::Us => "us".to_owned(),
        }
    }
}

/// Reading a layout's own word back returns the layout.
pub proof fn lemma_layout_roundtrip(l: Layout)
    ensures
        parse_layout_spec(layout_word(l)) == Some(l),
{
    reveal_strlit("fr");
    reveal_strlit("us");
    if l is Us {
        text::lemma_seq_ne_at("us"@, "fr"@, 0);
    }
}

pub proof fn lemma_layout_word_ok(l: Layout)
    ensures
        layout_word(l).len() > 0,
        text::sep_free(layout_word(l), ' '),
{
    reveal_strlit("fr");
    reveal_strlit("us");
}

// ---------------------------------------------------------------------------
// Workspaces
// ---------------------------------------------------------------------------

/// One workspace slot as persisted for the status bar.
#[derive(Clone, Copy, PartialEq, Eq, Structural, Debug)]
pub struct WorkspaceState {
    pub id: i32,
    pub windows: u16,
    pub active: bool,
}

impl WorkspaceState {
    pub fn new(id: i32, windows: u16, active: bool) -> (r: WorkspaceState)
        ensures
            r.id == id,
            r.windows == windows,
            r.active == active,
    {
        WorkspaceState { id, windows, active }
    }
}

/// Some slot in the list carries this workspace id.
pub open spec fn has_id(s: Seq<WorkspaceState>, id: int) -> bool {
    exists|j: int| 0 <= j < s.len() && (#[trigger] s[j]).id == id
}

/// Ascending by workspace id.
pub open spec fn sorted_by_id(s: Seq<WorkspaceState>) -> bool {
    forall|i: int, j: int| 0 <= i < j < s.len() ==> (#[trigger] s[i]).id <= (#[trigger] s[j]).id
}

/// The empty, inactive slot synthesized for a tracked id with no live
/// workspace.
pub open spec fn empty_slot(id: int) -> WorkspaceState {
    WorkspaceState { id: id as i32, windows: 0, active: false }
}

/// The slots that completion adds for the tracked ids `1..=hi`: one empty
/// slot for each id the reported list does not carry.
pub open spec fn added_slots(states: Seq<WorkspaceState>, hi: int) -> Multiset<WorkspaceState>
    decreases hi,
{
    if hi <= 0 {
        Multiset::<WorkspaceState>::empty()
    } else {
        let rest = added_slots(states, hi - 1);
        if has_id(states, hi) {
            rest
        } else {
            rest.insert(empty_slot(hi))
        }
    }
}

fn contains_id(v: &Vec<WorkspaceState>, id: i32) -> (r: bool)
    ensures
        r == has_id(v@, id as int),
{
    let n: usize = v.len();
    let mut j: usize = 0;
    while j < n
        invariant
            0 <= j <= n,
            n == v@.len(),
            forall|k: int| 0 <= k < j ==> (#[trigger] v@[k]).id != id,
        decreases n - j,
    {
        if v[j].id == id {
            return true;
        }
        j = j + 1;
    }
    false
}

/// A witness to an id survives any reordering: equal multisets carry the
/// same ids.
proof fn lemma_has_id_multiset(a: Seq<WorkspaceState>, b: Seq<WorkspaceState>, id: int)
    requires
        a.to_multiset() == b.to_multiset(),
        has_id(a, id),
    ensures
        has_id(b, id),
{
    let j = choose|j: int| 0 <= j < a.len() && (#[trigger] a[j]).id == id;
    let e = a[j];
    assert(a.contains(e));
    assert(a.to_multiset().count(e) > 0);
    assert(b.to_multiset().count(e) > 0);
    assert(b.contains(e));
    let i = choose|i: int| 0 <= i < b.len() && b[i] == e;
    assert(b[i].id == id);
}

impl Hypr {
    /// Completes and orders the reported workspace list: every tracked id
    /// `1..=5` gets a slot, absent ones an empty inactive slot, and the
    /// whole list is sorted by id with nothing else added or lost.
    pub fn change_workspace(states: Vec<WorkspaceState>) -> (r: Vec<WorkspaceState>)
        ensures
            r@.to_multiset() == states@.to_multiset().add(added_slots(states@, 5)),
            sorted_by_id(r@),
            forall|id: int| 1 <= id <= 5 ==> has_id(r@, id),
    {
        let ghost orig = states@;
        let mut cur = states;
        let mut id: i32 = 1;
        proof {
            assert(cur@.to_multiset() =~= orig.to_multiset().add(added_slots(orig, 0)));
        }
        while id <= 5
            invariant
                1 <= id <= 6,
                cur@.to_multiset() == orig.to_multiset().add(added_slots(orig, id - 1)),
                forall|k: int| 1 <= k < id ==> has_id(cur@, k),
                forall|k: int| id <= k <= 5 ==> has_id(cur@, k) == has_id(orig, k),
            decreases 6 - id,
        {
            let ghost pre = cur@;
            if !contains_id(&cur, id) {
                cur.push(WorkspaceState { id, windows: 0, active: false });
                proof {
                    assert(cur@ =~= pre.push(empty_slot(id as int)));
                    assert(cur@.to_multiset() =~= orig.to_multiset().add(
                        added_slots(orig, id as int),
                    ));
                    assert(cur@[pre.len() as int] == empty_slot(id as int));
                    assert forall|k: int| 1 <= k < id + 1 implies has_id(cur@, k) by {
                        if k == id {
                            assert(cur@[pre.len() as int].id == k);
                        } else {
                            assert(has_id(pre, k));
                            let j = choose|j: int|
                                0 <= j < pre.len() && (#[trigger] pre[j]).id == k;
                            assert(cur@[j].id == k);
                        }
                    }
                    assert forall|k: int| id + 1 <= k <= 5 implies has_id(cur@, k) == has_id(
                        orig,
                        k,
                    ) by {
                        if has_id(cur@, k) {
                            let j = choose|j: int|
                                0 <= j < cur@.len() && (#[trigger] cur@[j]).id == k;
                            assert(j < pre.len());
                            assert(pre[j].id == k);
                        }
                        if has_id(orig, k) {
                            assert(has_id(pre, k));
                            let j = choose|j: int|
                                0 <= j < pre.len() && (#[trigger] pre[j]).id == k;
                            assert(cur@[j].id == k);
                        }
                    }
                }
            } else {
                proof {
                    assert(added_slots(orig, id as int) =~= added_slots(orig, id - 1));
                }
            }
            id = id + 1;
        }
        // now every tracked id is present; order the list by id
        let n: usize = cur.len();
        let mut out: Vec<WorkspaceState> = Vec::new();
        let mut i: usize = 0;
        proof {
            assert(out@.to_multiset() =~= cur@.take(0).to_multiset());
        }
        while i < n
            invariant
                0 <= i <= n,
                n == cur@.len(),
                sorted_by_id(out@),
                out@.len() == i,
                out@.to_multiset() == cur@.take(i as int).to_multiset(),
            decreases n - i,
        {
            let s = cur[i];
            let mut pos: usize = 0;
            while pos < out.len() && out[pos].id <= s.id
                invariant
                    0 <= pos <= out@.len(),
                    forall|j: int| 0 <= j < pos ==> (#[trigger] out@[j]).id <= s.id,
                decreases out@.len() - pos,
            {
                pos = pos + 1;
            }
            let ghost pre = out@;
            out.insert(pos, s);
            proof {
                assert(cur@.take(i as int + 1) =~= cur@.take(i as int).push(s));
                assert(out@.to_multiset() =~= cur@.take(i as int + 1).to_multiset());
                assert forall|a: int, b: int| 0 <= a < b < out@.len() implies out@[a].id
                    <= out@[b].id by {
                    if b < pos {
                        assert(out@[a] == pre[a] && out@[b] == pre[b]);
                    } else if a > pos {
                        assert(out@[a] == pre[a - 1] && out@[b] == pre[b - 1]);
                    } else if a == pos {
                        assert(out@[a] == s && out@[b] == pre[b - 1]);
                        assert(pos < pre.len() ==> s.id < pre[pos as int].id);
                        assert(pre[pos as int].id <= pre[b - 1].id);
                    } else if b == pos {
                        assert(out@[a] == pre[a] && out@[b] == s);
                    } else {
                        assert(out@[a] == pre[a] && out@[b] == pre[b - 1]);
                        assert(pre[pos as int].id <= pre[b - 1].id || pos == b - 1);
                        assert(pos < pre.len() ==> s.id < pre[pos as int].id);
                    }
                }
            }
            i = i + 1;
        }
        proof {
            assert(cur@.take(n as int) =~= cur@);
            assert forall|id2: int| 1 <= id2 <= 5 implies has_id(out@, id2) by {
                lemma_has_id_multiset(cur@, out@, id2);
            }
        }
        out
    }
}

/// One workspace slot in the persisted record.
pub open spec fn ws_entry_spec(w: WorkspaceState) -> Seq<char> {
    "{\"id\":"@ + text::int_digits(w.id as int) + ",\"windows\":"@ + text::dec_digits(
        w.windows as int,
    ) + ",\"active\":"@ + json::bool_text(w.active) + "}"@
}

/// The slots joined with commas.
pub open spec fn ws_joined_spec(s: Seq<WorkspaceState>) -> Seq<char>
    decreases s.len(),
{
    if s.len() == 0 {
        Seq::<char>::empty()
    } else if s.len() == 1 {
        ws_entry_spec(s[0])
    } else {
        ws_joined_spec(s.drop_last()) + ","@ + ws_entry_spec(s.last())
    }
}

/// The persisted record of the whole workspace list: a JSON array of slot
/// objects, in list order.
pub open spec fn ws_log_spec(s: Seq<WorkspaceState>) -> Seq<char> {
    "["@ + ws_joined_spec(s) + "]"@
}

fn ws_entry(w: &WorkspaceState) -> (r: String)
    ensures
        r@ == ws_entry_spec(*w),
{
    let mut s: String = "{\"id\":".to_owned();
    s.append(text::fmt_i32(w.id).as_str());
    s.append(",\"windows\":");
    s.append(text::fmt_u32(w.windows as u32).as_str());
    s.append(",\"active\":");
    s.append(json::bool_str(w.active));
    s.append("}");
    proof {
        assert(s@ =~= ws_entry_spec(*w));
    }
    s
}

impl Hypr {
    /// The record line to persist for a workspace list.
    pub fn workspaces_log(states: &Vec<WorkspaceState>) -> (r: String)
        ensures
            r@ == ws_log_spec(states@),
    {
        let n: usize = states.len();
        let mut out: String = "[".to_owned();
        let mut i: usize = 0;
        proof {
            reveal_strlit("[");
            assert(states@.take(0) =~= Seq::<WorkspaceState>::empty());
            assert(out@ =~= "["@ + ws_joined_spec(states@.take(0)));
        }
        while i < n
            invariant
                0 <= i <= n,
                n == states@.len(),
                out@ == "["@ + ws_joined_spec(states@.take(i as int)),
            decreases n - i,
        {
            if i > 0 {
                out.append(",");
            }
            out.append(ws_entry(&states[i]).as_str());
            proof {
                reveal_strlit(",");
                let pre = states@.take(i as int);
                let now = states@.take(i as int + 1);
                assert(now.drop_last() =~= pre);
                assert(now.last() == states@[i as int]);
                if i == 0 {
                    assert(ws_joined_spec(now) =~= ws_entry_spec(states@[0]));
                }
                assert(out@ =~= "["@ + ws_joined_spec(now));
            }
            i = i + 1;
        }
        out.append("]");
        proof {
            reveal_strlit("]");
            assert(states@.take(n as int) =~= states@);
            assert(out@ =~= ws_log_spec(states@));
        }
        out
    }
}

// ---------------------------------------------------------------------------
// Accent color
// ---------------------------------------------------------------------------

/// The palette the accent border rotates through.
pub open spec fn palette() -> Seq<Seq<char>> {
    seq!["7aa2f7"@, "9ece6a"@, "e0af68"@, "bb9af7"@, "7dcfff"@, "c0caf5"@]
}

/// The fallback accent color, used when no color record reads back.
pub open spec fn default_color() -> Seq<char> {
    "7aa2f7"@
}

/// Picks one index below `n`.
///
/// Relies on rand's thread-local generator: `RngExt::random_range` over the
/// half-open range `0..n` returns a value in that range, and panics only
/// when the range is empty, which `n >= 1` rules out.
#[verifier::external_body]
fn pick_index(n: usize) -> (r: usize)
    requires
        n >= 1,
    ensures
        r < n,
{
    <rand::rngs::ThreadRng as RngExt>::random_range(&mut rand::rng(), 0..n)
}

/// What the compositor keyword and the record hold after a color change.
pub struct ColorPlan {
    pub color: String,
    pub keyword: String,
    pub keyword_value: String,
    pub record: String,
}

/// What the compositor keyword and the record hold after a layout change.
pub struct LayoutPlan {
    pub keyword: String,
    pub keyword_value: String,
    pub record: String,
}

/// What one compositor event asks for: a full workspace re-snapshot, a new
/// accent color, or nothing.
#[derive(Clone, Copy, PartialEq, Eq, Structural, Debug)]
pub enum HyprEvent {
    Workspaces,
    Color,
    Ignore,
}

/// The decision one compositor event line leads to: workspace events
/// re-snapshot every slot; a window focus change with a genuinely new
/// address rotates the accent color; everything else is ignored.
pub open spec fn listen_step_spec(line: Seq<char>, address_changed: bool) -> HyprEvent {
    if text::has_prefix(line, "workspace"@) {
        HyprEvent::Workspaces
    } else if text::has_prefix(line, "activewindowv2"@) && address_changed {
        HyprEvent::Color
    } else {
        HyprEvent::Ignore
    }
}

impl Hypr {
    /// Reads the accent color back from its persisted record; a missing or
    /// unreadable record falls back to the default color.
    pub fn get_color(record: Option<&str>) -> (r: String)
        ensures
            r@ == match record {
                Some(line) => match json::record_str_spec(line@) {
                    Some(c) => c,
                    None => default_color(),
                },
                None => default_color(),
            },
    {
        match record {
            Some(line) => match json::parse_string_record(line) {
                Ok(c) => c,
                Err(_) => "7aa2f7".to_owned(),
            },
            None => "7aa2f7".to_owned(),
        }
    }

    /// Draws a palette color other than the current one.
    pub fn rand_color(current: &str) -> (r: String)
        ensures
            palette().contains(r@),
            r@ != current@,
    {
        proof {
            reveal_strlit("7aa2f7");
            reveal_strlit("9ece6a");
            text::lemma_seq_ne_at("7aa2f7"@, "9ece6a"@, 0);
        }
        let mut list: Vec<&str> = Vec::new();
        if !text::str_eq("7aa2f7", current) {
            list.push("7aa2f7");
            proof {
                assert(palette()[0] == "7aa2f7"@);
            }
        }
        if !text::str_eq("9ece6a", current) {
            list.push("9ece6a");
            proof {
                assert(palette()[1] == "9ece6a"@);
            }
        }
        if !text::str_eq("e0af68", current) {
            list.push("e0af68");
            proof {
                assert(palette()[2] == "e0af68"@);
            }
        }
        if !text::str_eq("bb9af7", current) {
            list.push("bb9af7");
            proof {
                assert(palette()[3] == "bb9af7"@);
            }
        }
        if !text::str_eq("7dcfff", current) {
            list.push("7dcfff");
            proof {
                assert(palette()[4] == "7dcfff"@);
            }
        }
        if !text::str_eq("c0caf5", current) {
            list.push("c0caf5");
            proof {
                assert(palette()[5] == "c0caf5"@);
            }
        }
        proof {
            assert(list@.len() >= 1);
        }
        let idx = pick_index(list.len());
        list[idx].to_owned()
    }

    /// Rotates the accent color: a fresh palette color, the keyword value
    /// that paints the border with it, and the record that remembers it.
    pub fn change_color(current: &str) -> (r: ColorPlan)
        ensures
            palette().contains(r.color@),
            r.color@ != current@,
            r.keyword@ == "general:col.active_border"@,
            r.keyword_value@ == "rgba("@ + r.color@ + "ee)"@,
            r.record@ == json::json_string_spec(r.color@),
    {
        let color = Hypr::rand_color(current);
        let mut value: String = "rgba(".to_owned();
        value.append(color.as_str());
        value.append("ee)");
        let record = json::json_string(color.as_str());
        ColorPlan { color, keyword: "general:col.active_border".to_owned(), keyword_value: value, record }
    }

    /// Switches the keyboard layout: the keyword value is the layout word,
    /// the record its variant name.
    pub fn change_layout(layout: Layout) -> (r: LayoutPlan)
        ensures
            r.keyword@ == "input:kb_layout"@,
            r.keyword_value@ == layout_word(layout),
            r.record@ == layout_record(layout),
    {
        let record: String = match layout {
            Layout::Fr => "\"Fr\"".to_owned(),
            Layout::Us => "\"Us\"".to_owned(),
        };
        LayoutPlan {
            keyword: "input:kb_layout".to_owned(),
            keyword_value: layout.text(),
            record,
        }
    }

    /// Decides what one compositor event line asks for.
    pub fn listen_step(line: &str, address_changed: bool) -> (r: HyprEvent)
        ensures
            r == listen_step_spec(line@, address_changed),
    {
        if text::starts_with(line, "workspace") {
            HyprEvent::Workspaces
        } else if text::starts_with(line, "activewindowv2") && address_changed {
            HyprEvent::Color
        } else {
            HyprEvent::Ignore
        }
    }
}

} // verus!
