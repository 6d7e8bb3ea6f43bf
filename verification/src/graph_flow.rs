//! The steps that add a graph card (its type, instance, series and
//! settings) and that add one series to a graph.
use vstd::prelude::*;

use crate::builder::opt_view;
use crate::card_edit::CardEdit;
use crate::dashboard::{BarOrientation, CardKind, Dashboard, GraphSeries, GraphType};
use crate::detail_keys::{detail_applied, vim_selection, DetailFinish, DetailResult, DetailStep, DirtyWhen};
use crate::editor::{EditorMode, EditorState};
use crate::flat::flat_cards;
use crate::grid_ops::max_id;
use crate::ha::InstanceRuntime;
use crate::search::{entity_search, search_result, EntityPick};
use crate::strings::{char_len, to_owned_string, trim, trim_str};
use crate::wizard::{aliases_of, trimmed_opt, trimmed_or, trimmed_or_none, type_key, typed, Key};

verus! {

/// The step stays where it is.
pub open spec fn stays(r: DetailStep) -> bool {
    r.finish is Nothing
}

/// `m` is the series picker of a new graph of type `gt` on instance `inst`, empty.
pub open spec fn picking_series(m: EditorMode, inst: Seq<char>, gt: GraphType) -> bool {
    m matches EditorMode::GraphAddEntities { instance, graph_type, accumulated, query, selected, asking_more } && instance@
        == inst && graph_type == gt && accumulated@.len() == 0 && query@.len() == 0 && selected == 0 && !asking_more
}

/// Where choosing graph type `gt` leads with instances `al`: nowhere without
/// one, to the series picker with one, to the instance picker with more.
pub open spec fn graph_started(gt: GraphType, al: Seq<String>, r: DetailStep) -> bool {
    if al.len() == 0 {
        r.mode is Browse && (r.finish matches DetailFinish::Failed(m) && m@ == "no instances connected"@)
    } else if al.len() == 1 {
        stays(r) && picking_series(r.mode, al[0]@, gt)
    } else {
        stays(r) && r.mode == (EditorMode::GraphPickInstance { graph_type: gt, selected: 0 })
    }
}

/// The settings step after a new graph's series: a line graph asks for its
/// window and title, a bar graph for its orientation and title, a pie graph
/// only for its title (with a window of `1h`).
pub open spec fn configuring(inst: String, gt: GraphType, series: Seq<GraphSeries>, m: EditorMode) -> bool {
    match gt {
        GraphType::Line => m matches EditorMode::GraphEditWindowAdd { instance, graph_type, series: s, window_buf, title_buf, title_stage }
            && instance == inst && graph_type == gt && s@ == series && window_buf@.len() == 0 && title_buf@.len() == 0
            && !title_stage,
        GraphType::Bar => m matches EditorMode::GraphPickOrientationAdd { instance, series: s, current, title_buf, title_stage }
            && instance == inst && s@ == series && current == BarOrientation::Vertical && title_buf@.len() == 0 && !title_stage,
        GraphType::Pie => m matches EditorMode::GraphEditWindowAdd { instance, graph_type, series: s, window_buf, title_buf, title_stage }
            && instance == inst && graph_type == gt && s@ == series && window_buf@ == "1h"@ && title_buf@.len() == 0
            && title_stage,
    }
}

/// A searchable list's query and selection after a key: typing edits the
/// query and starts over at the top; Up or `k` and Down or `j` move within
/// the `n` results (a `k` or `j` that cannot move is typed).
pub open spec fn search_typed(q: Seq<char>, sel: usize, n: int, key: Key) -> (Seq<char>, usize) {
    match key {
        Key::Backspace => (typed(q, key), 0),
        Key::Up => (q, vim_selection(sel, n, key)),
        Key::Down => (q, vim_selection(sel, n, key)),
        Key::Char('k') if sel > 0 => (q, (sel - 1) as usize),
        Key::Char('j') if sel + 1 < n => (q, (sel + 1) as usize),
        Key::Char(c) => (q.push(c), 0),
        _ => (q, sel),
    }
}

/// The instance of the graph card at `idx` (empty when it is not a graph).
pub open spec fn graph_instance(d: Dashboard, idx: usize) -> Seq<char> {
    let fl = flat_cards(d);
    if idx < fl.len() {
        match fl[idx as int].kind {
            CardKind::Graph { instance, .. } => instance@,
            _ => Seq::empty(),
        }
    } else {
        Seq::empty()
    }
}

/// The editor is in one of the graph steps.
pub open spec fn is_graph_step(m: EditorMode) -> bool {
    m is GraphPickType || m is GraphPickInstance || m is GraphAddEntities || m is GraphEditWindowAdd
        || m is GraphPickOrientationAdd || m is GraphAddOneSeries
}

/// What a key does in one graph step, with instances `al` and, in the
/// series pickers, search results `rows`.
pub open spec fn graph_step_spec(m: EditorMode, key: Key, al: Seq<String>, rows: Seq<EntityPick>, r: DetailStep) -> bool {
    match m {
        EditorMode::GraphPickType => match key {
            Key::Char('1') => graph_started(GraphType::Line, al, r),
            Key::Char('2') => graph_started(GraphType::Bar, al, r),
            Key::Char('3') => graph_started(GraphType::Pie, al, r),
            Key::Esc => r.mode is Browse && stays(r),
            _ => stays(r) && r.mode is GraphPickType,
        },
        EditorMode::GraphPickInstance { graph_type, selected } => match key {
            Key::Esc => r.mode is Browse && stays(r),
            Key::Enter => stays(r) && if selected < al.len() {
                picking_series(r.mode, al[selected as int]@, graph_type)
            } else {
                r.mode == m
            },
            Key::Char(c) if '0' <= c && c <= '9' => {
                let i = (c as u32) - 48;
                stays(r) && if 1 <= i && i <= al.len() {
                    picking_series(r.mode, al[i - 1]@, graph_type)
                } else {
                    r.mode == m
                }
            },
            _ => stays(r) && r.mode == (EditorMode::GraphPickInstance {
                graph_type,
                selected: vim_selection(selected, al.len() as int, key),
            }),
        },
        EditorMode::GraphAddEntities { instance, graph_type, accumulated, query, selected, asking_more } => {
            let finish_picking = if accumulated@.len() > 0 {
                stays(r) && configuring(instance, graph_type, accumulated@, r.mode)
            } else {
                stays(r) && r.mode is Browse
            };
            if asking_more {
                match key {
                    Key::Char('y') | Key::Char('Y') => stays(r) && (r.mode matches EditorMode::GraphAddEntities {
                        instance: i,
                        graph_type: g,
                        accumulated: acc,
                        query: q,
                        selected: s,
                        asking_more: more,
                    } && i == instance && g == graph_type && acc == accumulated && q@.len() == 0 && s == 0 && !more),
                    Key::Char('n') | Key::Char('N') | Key::Esc => finish_picking,
                    _ => stays(r) && r.mode == m,
                }
            } else {
                match key {
                    Key::Esc => finish_picking,
                    Key::Enter => stays(r) && if selected < rows.len() {
                        r.mode matches EditorMode::GraphAddEntities {
                            instance: i,
                            graph_type: g,
                            accumulated: acc,
                            query: q,
                            selected: s,
                            asking_more: more,
                        } && i == instance && g == graph_type && q == query && s == selected && more && acc@
                            == accumulated@.push(GraphSeries { entity: rows[selected as int].entity_id, label: None, color: None })
                    } else {
                        r.mode == m
                    },
                    _ => stays(r) && (r.mode matches EditorMode::GraphAddEntities {
                        instance: i,
                        graph_type: g,
                        accumulated: acc,
                        query: q,
                        selected: s,
                        asking_more: more,
                    } && i == instance && g == graph_type && acc == accumulated && !more && (q@, s) == search_typed(
                        query@,
                        selected,
                        rows.len() as int,
                        key,
                    )),
                }
            }
        },
        EditorMode::GraphEditWindowAdd { instance, graph_type, series, window_buf, title_buf, title_stage } => match key {
            Key::Esc => r.mode is Browse && stays(r),
            Key::Enter => if title_stage {
                r.mode is Browse && (r.finish matches DetailFinish::AddCard(CardKind::Graph {
                    instance: i,
                    entity,
                    entities,
                    graph_type: g,
                    window,
                    orientation,
                    title,
                }) && i == instance && entity is None && entities == series && g == graph_type && window@ == trimmed_or(
                    window_buf@,
                    "1h"@,
                ) && orientation == BarOrientation::Vertical && opt_view(title) == trimmed_opt(title_buf@))
            } else {
                stays(r) && r.mode == (EditorMode::GraphEditWindowAdd { instance, graph_type, series, window_buf, title_buf, title_stage: true })
            },
            _ => stays(r) && (r.mode matches EditorMode::GraphEditWindowAdd {
                instance: i,
                graph_type: g,
                series: s,
                window_buf: w,
                title_buf: t,
                title_stage: ts,
            } && i == instance && g == graph_type && s == series && ts == title_stage && if title_stage {
                w == window_buf && t@ == typed(title_buf@, key)
            } else {
                t == title_buf && w@ == typed(window_buf@, key)
            }),
        },
        EditorMode::GraphPickOrientationAdd { instance, series, current, title_buf, title_stage } => match key {
            Key::Esc => r.mode is Browse && stays(r),
            Key::Enter => if title_stage {
                r.mode is Browse && (r.finish matches DetailFinish::AddCard(CardKind::Graph {
                    instance: i,
                    entity,
                    entities,
                    graph_type,
                    window,
                    orientation,
                    title,
                }) && i == instance && entity is None && entities == series && graph_type == GraphType::Bar && window@
                    == "1h"@ && orientation == current && opt_view(title) == trimmed_opt(title_buf@))
            } else {
                stays(r) && r.mode == (EditorMode::GraphPickOrientationAdd { instance, series, current, title_buf, title_stage: true })
            },
            _ => stays(r) && (r.mode matches EditorMode::GraphPickOrientationAdd {
                instance: i,
                series: s,
                current: c,
                title_buf: t,
                title_stage: ts,
            } && i == instance && s == series && ts == title_stage && match key {
                Key::Up if !title_stage => c == BarOrientation::Vertical && t == title_buf,
                Key::Char('k') if !title_stage => c == BarOrientation::Vertical && t == title_buf,
                Key::Down if !title_stage => c == BarOrientation::Horizontal && t == title_buf,
                Key::Char('j') if !title_stage => c == BarOrientation::Horizontal && t == title_buf,
                Key::Backspace => c == current && t@ == typed(title_buf@, key),
                Key::Char(_) if title_stage => c == current && t@ == typed(title_buf@, key),
                _ => c == current && t == title_buf,
            }),
        },
        EditorMode::GraphAddOneSeries { card_idx, query, selected } => match key {
            Key::Esc => r.mode is Browse && stays(r),
            Key::Enter => if selected < rows.len() {
                r.mode is Browse && r.finish == (DetailFinish::Card {
                    idx: card_idx,
                    edit: CardEdit::SeriesAdd(rows[selected as int].entity_id),
                    dirty: DirtyWhen::Always,
                })
            } else {
                stays(r) && r.mode == m
            },
            _ => stays(r) && (r.mode matches EditorMode::GraphAddOneSeries { card_idx: c, query: q, selected: s } && c == card_idx
                && (q@, s) == search_typed(query@, selected, rows.len() as int, key)),
        },
        _ => false,
    }
}

/// The instance and query the step searches entities with.
pub open spec fn search_of(m: EditorMode, d: Dashboard) -> (Seq<char>, Seq<char>) {
    match m {
        EditorMode::GraphAddEntities { instance, query, .. } => (instance@, query@),
        EditorMode::GraphAddOneSeries { card_idx, query, .. } => (graph_instance(d, card_idx), query@),
        _ => (Seq::empty(), Seq::empty()),
    }
}

/// What a key does in the graph steps; outside them nothing changes.
pub open spec fn graph_key_spec(a: EditorState, d: Dashboard, key: Key, rts: Seq<InstanceRuntime>, b: EditorState, e: Dashboard, r: DetailResult) -> bool {
    if is_graph_step(a.mode) {
        let (inst, q) = search_of(a.mode, d);
        exists|rows: Seq<EntityPick>, st: DetailStep|
            search_result(rts, inst, q, None, rows) && #[trigger] graph_step_spec(a.mode, key, aliases_of(rts), rows, st)
                && detail_applied(a, d, st, b, e, r)
    } else {
        r is NotMine && b == a && e == d
    }
}

fn stay(m: EditorMode) -> (r: DetailStep)
    ensures
        stays(r),
        r.mode == m,
{
    DetailStep { mode: m, finish: DetailFinish::Nothing }
}

fn adding_series(instance: String, graph_type: GraphType) -> (r: EditorMode)
    ensures
        picking_series(r, instance@, graph_type),
{
    EditorMode::GraphAddEntities {
        instance,
        graph_type,
        accumulated: Vec::new(),
        query: String::new(),
        selected: 0,
        asking_more: false,
    }
}

fn start_graph(gt: GraphType, al: &Vec<String>) -> (r: DetailStep)
    ensures
        graph_started(gt, al@, r),
{
    let n = al.len();
    if n == 0 {
        DetailStep { mode: EditorMode::Browse, finish: DetailFinish::Failed(to_owned_string("no instances connected")) }
    } else if n == 1 {
        stay(adding_series(al[0].clone(), gt))
    } else {
        stay(EditorMode::GraphPickInstance { graph_type: gt, selected: 0 })
    }
}

fn configure(instance: String, gt: GraphType, series: Vec<GraphSeries>) -> (r: EditorMode)
    ensures
        configuring(instance, gt, series@, r),
{
    match gt {
        GraphType::Line => EditorMode::GraphEditWindowAdd {
            instance,
            graph_type: gt,
            series,
            window_buf: String::new(),
            title_buf: String::new(),
            title_stage: false,
        },
        GraphType::Bar => EditorMode::GraphPickOrientationAdd {
            instance,
            series,
            current: BarOrientation::Vertical,
            title_buf: String::new(),
            title_stage: false,
        },
        GraphType::Pie => EditorMode::GraphEditWindowAdd {
            instance,
            graph_type: gt,
            series,
            window_buf: to_owned_string("1h"),
            title_buf: String::new(),
            title_stage: true,
        },
    }
}

fn search_key(query: String, selected: usize, n: usize, key: Key) -> (r: (String, usize))
    ensures
        (r.0@, r.1) == search_typed(query@, selected, n as int, key),
{
    let mut q = query;
    match key {
        Key::Backspace => {
            type_key(&mut q, key);
            (q, 0)
        },
        Key::Up => (q, if selected > 0 { selected - 1 } else { selected }),
        Key::Down => (q, if selected < n && selected + 1 < n { selected + 1 } else { selected }),
        Key::Char('k') if selected > 0 => (q, selected - 1),
        Key::Char('j') if selected < n && selected + 1 < n => (q, selected + 1),
        Key::Char(_) => {
            type_key(&mut q, key);
            (q, 0)
        },
        _ => (q, selected),
    }
}

fn trimmed_or_1h(buf: &str) -> (r: String)
    ensures
        r@ == trimmed_or(buf@, "1h"@),
{
    let t = trim_str(buf);
    if char_len(t) == 0 {
        to_owned_string("1h")
    } else {
        to_owned_string(t)
    }
}

/// The next step of a graph flow.
pub fn graph_step(m: EditorMode, key: Key, al: &Vec<String>, rows: &Vec<EntityPick>) -> (r: DetailStep)
    requires
        is_graph_step(m),
    ensures
        graph_step_spec(m, key, al@, rows@, r),
{
    match m {
        EditorMode::GraphPickType => match key {
            Key::Char('1') => start_graph(GraphType::Line, al),
            Key::Char('2') => start_graph(GraphType::Bar, al),
            Key::Char('3') => start_graph(GraphType::Pie, al),
            Key::Esc => stay(EditorMode::Browse),
            _ => stay(EditorMode::GraphPickType),
        },
        EditorMode::GraphPickInstance { graph_type, selected } => match key {
            Key::Esc => stay(EditorMode::Browse),
            Key::Enter => {
                if selected < al.len() {
                    stay(adding_series(al[selected].clone(), graph_type))
                } else {
                    stay(EditorMode::GraphPickInstance { graph_type, selected })
                }
            },
            Key::Char(c) if '0' <= c && c <= '9' => {
                let i = (c as u32 - 48) as usize;
                if 1 <= i && i <= al.len() {
                    stay(adding_series(al[i - 1].clone(), graph_type))
                } else {
                    stay(EditorMode::GraphPickInstance { graph_type, selected })
                }
            },
            _ => {
                let n = al.len();
                let s = match key {
                    Key::Up | Key::Char('k') => if selected > 0 {
                        selected - 1
                    } else {
                        selected
                    },
                    Key::Down | Key::Char('j') => if selected < n && selected + 1 < n {
                        selected + 1
                    } else {
                        selected
                    },
                    _ => selected,
                };
                stay(EditorMode::GraphPickInstance { graph_type, selected: s })
            },
        },
        EditorMode::GraphAddEntities { instance, graph_type, accumulated, query, selected, asking_more } => {
            let finishing = match key {
                Key::Esc => true,
                Key::Char('n') | Key::Char('N') => asking_more,
                _ => false,
            };
            if finishing {
                if accumulated.len() > 0 {
                    return stay(configure(instance, graph_type, accumulated));
                } else {
                    return stay(EditorMode::Browse);
                }
            }
            if asking_more {
                match key {
                    Key::Char('y') | Key::Char('Y') => stay(
                        EditorMode::GraphAddEntities {
                            instance,
                            graph_type,
                            accumulated,
                            query: String::new(),
                            selected: 0,
                            asking_more: false,
                        },
                    ),
                    _ => stay(EditorMode::GraphAddEntities { instance, graph_type, accumulated, query, selected, asking_more }),
                }
            } else {
                match key {
                    Key::Enter => {
                        if selected < rows.len() {
                            let mut acc = accumulated;
                            acc.push(GraphSeries { entity: rows[selected].entity_id.clone(), label: None, color: None });
                            stay(EditorMode::GraphAddEntities { instance, graph_type, accumulated: acc, query, selected, asking_more: true })
                        } else {
                            stay(EditorMode::GraphAddEntities { instance, graph_type, accumulated, query, selected, asking_more })
                        }
                    },
                    _ => {
                        let (q, s) = search_key(query, selected, rows.len(), key);
                        stay(EditorMode::GraphAddEntities { instance, graph_type, accumulated, query: q, selected: s, asking_more: false })
                    },
                }
            }
        },
        EditorMode::GraphEditWindowAdd { instance, graph_type, series, window_buf, title_buf, title_stage } => match key {
            Key::Esc => stay(EditorMode::Browse),
            Key::Enter => {
                if title_stage {
                    let window = trimmed_or_1h(window_buf.as_str());
                    let title = trimmed_or_none(title_buf.as_str());
                    DetailStep {
                        mode: EditorMode::Browse,
                        finish: DetailFinish::AddCard(
                            CardKind::Graph {
                                instance,
                                entity: None,
                                entities: series,
                                graph_type,
                                window,
                                orientation: BarOrientation::Vertical,
                                title,
                            },
                        ),
                    }
                } else {
                    stay(EditorMode::GraphEditWindowAdd { instance, graph_type, series, window_buf, title_buf, title_stage: true })
                }
            },
            _ => {
                let mut w = window_buf;
                let mut t = title_buf;
                if title_stage {
                    type_key(&mut t, key);
                } else {
                    type_key(&mut w, key);
                }
                stay(EditorMode::GraphEditWindowAdd { instance, graph_type, series, window_buf: w, title_buf: t, title_stage })
            },
        },
        EditorMode::GraphPickOrientationAdd { instance, series, current, title_buf, title_stage } => match key {
            Key::Esc => stay(EditorMode::Browse),
            Key::Enter => {
                if title_stage {
                    let title = trimmed_or_none(title_buf.as_str());
                    DetailStep {
                        mode: EditorMode::Browse,
                        finish: DetailFinish::AddCard(
                            CardKind::Graph {
                                instance,
                                entity: None,
                                entities: series,
                                graph_type: GraphType::Bar,
                                window: to_owned_string("1h"),
                                orientation: current,
                                title,
                            },
                        ),
                    }
                } else {
                    stay(EditorMode::GraphPickOrientationAdd { instance, series, current, title_buf, title_stage: true })
                }
            },
            _ => {
                let mut t = title_buf;
                let mut c = current;
                match key {
                    Key::Up | Key::Char('k') | Key::Down | Key::Char('j') => {
                        if !title_stage {
                            c = if key == Key::Up || key == Key::Char('k') {
                                BarOrientation::Vertical
                            } else {
                                BarOrientation::Horizontal
                            };
                        } else if key == Key::Char('k') || key == Key::Char('j') {
                            type_key(&mut t, key);
                        }
                    },
                    Key::Backspace => type_key(&mut t, key),
                    Key::Char(_) => {
                        if title_stage {
                            type_key(&mut t, key);
                        }
                    },
                    _ => {},
                }
                stay(EditorMode::GraphPickOrientationAdd { instance, series, current: c, title_buf: t, title_stage })
            },
        },
        _ => match m {
            EditorMode::GraphAddOneSeries { card_idx, query, selected } => match key {
                Key::Esc => stay(EditorMode::Browse),
                Key::Enter => {
                    if selected < rows.len() {
                        DetailStep {
                            mode: EditorMode::Browse,
                            finish: DetailFinish::Card {
                                idx: card_idx,
                                edit: CardEdit::SeriesAdd(rows[selected].entity_id.clone()),
                                dirty: DirtyWhen::Always,
                            },
                        }
                    } else {
                        stay(EditorMode::GraphAddOneSeries { card_idx, query, selected })
                    }
                },
                _ => {
                    let (q, s) = search_key(query, selected, rows.len(), key);
                    stay(EditorMode::GraphAddOneSeries { card_idx, query: q, selected: s })
                },
            },
            _ => stay(EditorMode::Browse),
        },
    }
}

fn graph_instance_of(d: &Dashboard, idx: usize) -> (r: String)
    ensures
        r@ == graph_instance(*d, idx),
{
    match d.card(idx) {
        Some(c) => match &c.kind {
            CardKind::Graph { instance, .. } => instance.clone(),
            _ => String::new(),
        },
        None => String::new(),
    }
}

impl EditorState {
    /// Handle a key in the steps that add a graph card or a series to a
    /// graph. In any other step nothing changes and the result is `NotMine`.
    pub fn graph_key(&mut self, key: Key, dash: &mut Dashboard, runtimes: &Vec<InstanceRuntime>) -> (r: DetailResult)
        requires
            flat_cards(*old(dash)).len() < usize::MAX,
            max_id(flat_cards(*old(dash))) < u64::MAX,
        ensures
            graph_key_spec(*old(self), *old(dash), key, runtimes@, *final(self), *final(dash), r),
    {
        let mine = match &self.mode {
            EditorMode::GraphPickType | EditorMode::GraphPickInstance { .. } | EditorMode::GraphAddEntities { .. }
            | EditorMode::GraphEditWindowAdd { .. } | EditorMode::GraphPickOrientationAdd { .. }
            | EditorMode::GraphAddOneSeries { .. } => true,
            _ => false,
        };
        if !mine {
            return DetailResult::NotMine;
        }
        let al = crate::wizard::aliases(runtimes);
        let rows = match &self.mode {
            EditorMode::GraphAddEntities { instance, query, .. } => entity_search(runtimes, instance.as_str(), query.as_str()),
            EditorMode::GraphAddOneSeries { card_idx, query, .. } => {
                let inst = graph_instance_of(dash, *card_idx);
                entity_search(runtimes, inst.as_str(), query.as_str())
            },
            _ => entity_search(runtimes, "", ""),
        };
        proof {
            reveal_strlit("");
            assert(""@ =~= Seq::<char>::empty());
        }
        let mut mode = EditorMode::Browse;
        std::mem::swap(&mut mode, &mut self.mode);
        let ghost a = EditorState { mode: mode, ..*self };
        assert(a == *old(self));
        let ghost m0 = mode;
        let st = graph_step(mode, key, &al, &rows);
        let ghost st_copy = st;
        let ghost d0 = *dash;
        let r = self.apply_detail(st, dash);
        assert(detail_applied(a, d0, st_copy, *self, *dash, r));
        assert(graph_step_spec(m0, key, aliases_of(runtimes@), rows@, st_copy));
        r
    }
}

} // verus!
