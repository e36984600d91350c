//! The tabs of the graphical frontend: what each lists, which default its
//! rows can be made, its title, and the rows a tab shows of the session.
//!
//! The rows hold plain values; turning them into widgets, and the slider
//! positions and meter levels (floating point), are done outside the
//! library.

use vstd::prelude::*;

use crate::device_kind::DeviceKind;
use crate::view::{device_for, device_listed, node_for, node_listed, Device, Node, SessionView, Target};
use crate::wirehose::object_id::ObjectId;

verus! {

/// A tab of the mixer.
#[derive(Debug, Clone, Copy, PartialEq, Eq, Structural)]
pub enum TabKind {
    Playback,
    Recording,
    Output,
    Input,
    Configuration,
}

/// A list of nodes of one kind.
#[derive(Debug, Clone, Copy, PartialEq, Eq, Structural)]
pub enum NodeKind {
    Playback,
    Recording,
    Output,
    Input,
}

/// What a tab lists: nodes of one kind, or devices.
#[derive(Debug, Clone, Copy, PartialEq, Eq, Structural)]
pub enum ListKind {
    Node(NodeKind),
    Device,
}

/// A tab's list and, for the device tabs, the default its rows can be made.
pub open spec fn tab_info_v(tab: TabKind) -> (ListKind, Option<DeviceKind>) {
    match tab {
        TabKind::Playback => (ListKind::Node(NodeKind::Playback), None),
        TabKind::Recording => (ListKind::Node(NodeKind::Recording), None),
        TabKind::Output => (ListKind::Node(NodeKind::Output), Some(DeviceKind::Sink)),
        TabKind::Input => (ListKind::Node(NodeKind::Input), Some(DeviceKind::Source)),
        TabKind::Configuration => (ListKind::Device, None),
    }
}

/// Map a tab to its list and (for device tabs) the default it sets.
pub fn tab_info(tab: TabKind) -> (r: (ListKind, Option<DeviceKind>))
    ensures
        r == tab_info_v(tab),
{
    match tab {
        TabKind::Playback => (ListKind::Node(NodeKind::Playback), None),
        TabKind::Recording => (ListKind::Node(NodeKind::Recording), None),
        TabKind::Output => (ListKind::Node(NodeKind::Output), Some(DeviceKind::Sink)),
        TabKind::Input => (ListKind::Node(NodeKind::Input), Some(DeviceKind::Source)),
        TabKind::Configuration => (ListKind::Device, None),
    }
}

/// A tab's title.
pub open spec fn tab_title_v(tab: TabKind) -> Seq<char> {
    match tab {
        TabKind::Playback => "Playback"@,
        TabKind::Recording => "Recording"@,
        TabKind::Output => "Output Devices"@,
        TabKind::Input => "Input Devices"@,
        TabKind::Configuration => "Configuration"@,
    }
}

/// The title shown for a tab.
pub fn tab_title(tab: TabKind) -> (r: &'static str)
    ensures
        r@ == tab_title_v(tab),
{
    match tab {
        TabKind::Playback => "Playback",
        TabKind::Recording => "Recording",
        TabKind::Output => "Output Devices",
        TabKind::Input => "Input Devices",
        TabKind::Configuration => "Configuration",
    }
}

/// The tab shown: the `current`-th configured tab, or the playback tab
/// when there is no such tab.
pub open spec fn shown_tab(tabs: Seq<TabKind>, current: int) -> TabKind {
    if 0 <= current < tabs.len() {
        tabs[current]
    } else {
        TabKind::Playback
    }
}

/// The ids a list shows, in display order.
pub open spec fn list_ids(v: SessionView, k: ListKind) -> Seq<ObjectId> {
    match k {
        ListKind::Node(NodeKind::Playback) => v.nodes_playback@,
        ListKind::Node(NodeKind::Recording) => v.nodes_recording@,
        ListKind::Node(NodeKind::Output) => v.nodes_output@,
        ListKind::Node(NodeKind::Input) => v.nodes_input@,
        ListKind::Device => v.devices_all@,
    }
}

/// `i` is the first position of target `t` among `targets`.
pub open spec fn is_first_target(targets: Seq<(Target, String)>, t: Target, i: int) -> bool {
    &&& 0 <= i < targets.len()
    &&& targets[i].0 == t
    &&& forall|j: int| 0 <= j < i ==> targets[j].0 != t
}

/// The index of the current target among the choices: its first position,
/// or zero when there is no current target or it is not among them.
pub open spec fn selected_index(targets: Seq<(Target, String)>, t: Option<Target>) -> int {
    match t {
        Some(t) => if exists|i: int| is_first_target(targets, t, i) {
            choose|i: int| is_first_target(targets, t, i)
        } else {
            0
        },
        None => 0,
    }
}

/// The labels of the choices, in order.
pub open spec fn labels(targets: Seq<(Target, String)>) -> Seq<Seq<char>> {
    Seq::new(targets.len(), |i: int| targets[i].1@)
}

/// The texts of a sequence of strings.
pub open spec fn texts(s: Seq<String>) -> Seq<Seq<char>> {
    Seq::new(s.len(), |i: int| s[i]@)
}

/// A row of a node tab.
#[derive(Debug)]
pub struct NodeRow {
    pub title: String,
    /// What the node is routed to.
    pub subtitle: String,
    pub muted: bool,
    pub is_default: bool,
    /// Whether the tab can make its rows the default.
    pub can_default: bool,
    pub target_labels: Vec<String>,
    pub target_index: usize,
    /// Whether a target chooser is shown: only when there are choices.
    pub show_target: bool,
    /// The peak meter: none when the node has no peak buffer, else whether
    /// it is stereo.
    pub peaks: Option<bool>,
}

/// A row of the device tab.
#[derive(Debug)]
pub struct DeviceRow {
    pub title: String,
    pub profile_labels: Vec<String>,
    pub profile_index: usize,
}

/// What a tab shows: its rows, the ids they stand for (in the same order),
/// whether it is the device tab, and the default its rows can be made.
#[derive(Debug)]
pub struct Projection {
    pub node_rows: Vec<NodeRow>,
    pub device_rows: Vec<DeviceRow>,
    pub node_ids: Vec<ObjectId>,
    pub device_ids: Vec<ObjectId>,
    pub is_device_tab: bool,
    pub default_kind: Option<DeviceKind>,
}

/// `row` shows node `n` on a tab whose rows can be made the default when
/// `can_default`.
pub open spec fn node_row_of(row: NodeRow, n: Node, can_default: bool) -> bool {
    &&& row.title@ == n.title@
    &&& row.subtitle@ == n.target_title@
    &&& row.muted == n.mute
    &&& row.is_default == (n.is_default_sink || n.is_default_source)
    &&& row.can_default == can_default
    &&& row.show_target == (n.targets@.len() > 0)
    &&& texts(row.target_labels@) == labels(n.targets@)
    &&& row.target_index == selected_index(n.targets@, n.target)
    &&& row.peaks == (if n.peak_percents@.len() > 0 {
        Some(n.peak_percents@.len() >= 2)
    } else {
        None
    })
}

/// `row` shows device `d`.
pub open spec fn device_row_of(row: DeviceRow, d: Device) -> bool {
    &&& row.title@ == d.title@
    &&& texts(row.profile_labels@) == labels(d.profiles@)
    &&& row.profile_index == selected_index(d.profiles@, d.target)
}

/// `p` is what `v` shows on the tab `tab`: the ids of its list that the
/// view holds, in order, each with its row; the other list empty.
pub open spec fn projects_tab(p: Projection, v: SessionView, tab: TabKind) -> bool {
    let (k, dk) = tab_info_v(tab);
    &&& p.is_device_tab == (k is Device)
    &&& p.default_kind == dk
    &&& if k is Device {
        &&& p.node_rows@.len() == 0
        &&& p.node_ids@.len() == 0
        &&& p.device_ids@ == list_ids(v, k).filter(device_listed(v))
        &&& p.device_rows@.len() == p.device_ids@.len()
        &&& forall|i: int|
            0 <= i < p.device_rows@.len() ==> device_row_of(
                #[trigger] p.device_rows@[i],
                device_for(v, p.device_ids@[i])->0,
            )
    } else {
        &&& p.device_rows@.len() == 0
        &&& p.device_ids@.len() == 0
        &&& p.node_ids@ == list_ids(v, k).filter(node_listed(v))
        &&& p.node_rows@.len() == p.node_ids@.len()
        &&& forall|i: int|
            0 <= i < p.node_rows@.len() ==> node_row_of(
                #[trigger] p.node_rows@[i],
                node_for(v, p.node_ids@[i])->0,
                dk is Some,
            )
    }
}

/// The labels of a list of choices.
fn target_labels(targets: &Vec<(Target, String)>) -> (r: Vec<String>)
    ensures
        texts(r@) == labels(targets@),
{
    let mut out: Vec<String> = Vec::new();
    let mut i: usize = 0;
    while i < targets.len()
        invariant
            i <= targets@.len(),
            out@.len() == i,
            forall|k: int| 0 <= k < i ==> (#[trigger] out@[k])@ == targets@[k].1@,
        decreases targets@.len() - i,
    {
        out.push(targets[i].1.clone());
        i += 1;
    }
    assert(texts(out@) =~= labels(targets@));
    out
}

/// The index of the current target among the choices.
fn selected(targets: &Vec<(Target, String)>, current: Option<Target>) -> (r: usize)
    ensures
        r == selected_index(targets@, current),
{
    match current {
        Some(t) => {
            let mut i: usize = 0;
            while i < targets.len()
                invariant
                    current == Some(t),
                    i <= targets@.len(),
                    forall|j: int| 0 <= j < i ==> targets@[j].0 != t,
                decreases targets@.len() - i,
            {
                if targets[i].0 == t {
                    assert(is_first_target(targets@, t, i as int));
                    proof {
                        let k = choose|k: int| is_first_target(targets@, t, k);
                        assert(k == i) by {
                            if k < i {
                                assert(targets@[k].0 != t);
                            } else if k > i {
                                assert(targets@[i as int].0 != t);
                            }
                        }
                    }
                    return i;
                }
                i += 1;
            }
            assert(!exists|k: int| is_first_target(targets@, t, k));
            0
        },
        None => 0,
    }
}

/// The row of node `n`.
fn node_row(n: &Node, can_default: bool) -> (r: NodeRow)
    ensures
        node_row_of(r, *n, can_default),
{
    NodeRow {
        title: n.title.clone(),
        subtitle: n.target_title.clone(),
        muted: n.mute,
        is_default: n.is_default_sink || n.is_default_source,
        can_default,
        target_labels: target_labels(&n.targets),
        target_index: selected(&n.targets, n.target),
        show_target: n.targets.len() > 0,
        peaks: if n.peak_percents.len() > 0 {
            Some(n.peak_percents.len() >= 2)
        } else {
            None
        },
    }
}

/// The row of device `d`.
fn device_row(d: &Device) -> (r: DeviceRow)
    ensures
        device_row_of(r, *d),
{
    DeviceRow {
        title: d.title.clone(),
        profile_labels: target_labels(&d.profiles),
        profile_index: selected(&d.profiles, d.target),
    }
}

/// The ids a list shows.
fn list_of(view: &SessionView, k: ListKind) -> (r: &Vec<ObjectId>)
    ensures
        r@ == list_ids(*view, k),
{
    match k {
        ListKind::Node(NodeKind::Playback) => &view.nodes_playback,
        ListKind::Node(NodeKind::Recording) => &view.nodes_recording,
        ListKind::Node(NodeKind::Output) => &view.nodes_output,
        ListKind::Node(NodeKind::Input) => &view.nodes_input,
        ListKind::Device => &view.devices_all,
    }
}

/// The tab shown: the `current`-th of `tabs`, or the playback tab.
pub fn current_tab(tabs: &Vec<TabKind>, current: usize) -> (r: TabKind)
    ensures
        r == shown_tab(tabs@, current as int),
{
    if current < tabs.len() {
        tabs[current]
    } else {
        TabKind::Playback
    }
}

/// Project the session for the `current`-th of the configured `tabs`: the
/// rows of the ids its list shows that the view holds, in order.
pub fn project(view: &SessionView, tabs: &Vec<TabKind>, current: usize) -> (r: Projection)
    ensures
        projects_tab(r, *view, shown_tab(tabs@, current as int)),
{
    let tab = current_tab(tabs, current);
    let (list_kind, default_kind) = tab_info(tab);
    let is_device_tab = match list_kind {
        ListKind::Device => true,
        _ => false,
    };
    let ids = list_of(view, list_kind);
    let mut node_rows: Vec<NodeRow> = Vec::new();
    let mut node_ids: Vec<ObjectId> = Vec::new();
    let mut device_rows: Vec<DeviceRow> = Vec::new();
    let mut device_ids: Vec<ObjectId> = Vec::new();
    if is_device_tab {
        let ghost pred = device_listed(*view);
        let mut i: usize = 0;
        while i < ids.len()
            invariant
                pred == device_listed(*view),
                i <= ids@.len(),
                device_ids@ == ids@.subrange(0, i as int).filter(pred),
                device_rows@.len() == device_ids@.len(),
                forall|k: int|
                    0 <= k < device_rows@.len() ==> device_row_of(
                        #[trigger] device_rows@[k],
                        device_for(*view, device_ids@[k])->0,
                    ),
            decreases ids@.len() - i,
        {
            let id = ids[i];
            proof {
                assert(ids@.subrange(0, i + 1) =~= ids@.subrange(0, i as int).push(id));
                ids@.subrange(0, i as int).lemma_filter_push(id, pred);
            }
            match view.device(id) {
                Some(d) => {
                    device_rows.push(device_row(d));
                    device_ids.push(id);
                },
                None => {},
            }
            i += 1;
        }
        assert(ids@.subrange(0, i as int) =~= ids@);
    } else {
        let can_default = default_kind.is_some();
        let ghost pred = node_listed(*view);
        let mut i: usize = 0;
        while i < ids.len()
            invariant
                pred == node_listed(*view),
                i <= ids@.len(),
                node_ids@ == ids@.subrange(0, i as int).filter(pred),
                node_rows@.len() == node_ids@.len(),
                forall|k: int|
                    0 <= k < node_rows@.len() ==> node_row_of(
                        #[trigger] node_rows@[k],
                        node_for(*view, node_ids@[k])->0,
                        can_default,
                    ),
            decreases ids@.len() - i,
        {
            let id = ids[i];
            proof {
                assert(ids@.subrange(0, i + 1) =~= ids@.subrange(0, i as int).push(id));
                ids@.subrange(0, i as int).lemma_filter_push(id, pred);
            }
            match view.node(id) {
                Some(n) => {
                    node_rows.push(node_row(n, can_default));
                    node_ids.push(id);
                },
                None => {},
            }
            i += 1;
        }
        assert(ids@.subrange(0, i as int) =~= ids@);
    }
    Projection { node_rows, device_rows, node_ids, device_ids, is_device_tab, default_kind }
}

} // verus!
