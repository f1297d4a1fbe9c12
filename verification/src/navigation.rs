//! Shared list navigation: the translation of key presses into navigation
//! events (including the chorded `g`-`g` jump), and the application of
//! navigation events to a list selection, clamped to the filtered set.

use vstd::prelude::*;

use crate::events::{InputEvent, Key, KtxEvent};

verus! {

/// One step down, saturating at zero.
pub open spec fn sat_dec(n: usize) -> usize {
    if n == 0 {
        0usize
    } else {
        (n - 1) as usize
    }
}

/// A selection is in bounds when it points into the list, or sits at zero
/// when the list is empty.
pub open spec fn in_bounds(sel: Option<usize>, max_len: usize) -> bool {
    match sel {
        Some(s) => s < max_len || s == 0,
        None => true,
    }
}

/// Re-clamp a selection that the shrinking of the filtered set may have left
/// past the end: move it to the last position (or zero on an empty list).
pub open spec fn spec_clamp(sel: Option<usize>, max_len: usize) -> Option<usize> {
    match sel {
        Some(s) => if s >= max_len {
            Some(sat_dec(max_len))
        } else {
            Some(s)
        },
        None => None,
    }
}

/// The navigation events every list view shares.
pub open spec fn is_nav_event(e: KtxEvent) -> bool {
    ||| e is ListSelect
    ||| e is ListOneUp
    ||| e is ListOneDown
    ||| e is ListPageUp
    ||| e is ListPageDown
    ||| e is ListTop
    ||| e is ListBottom
}

/// Where a navigation event moves a (re-clamped) selection in a list of
/// `max_len` filtered entries: single steps and pages stop at the ends,
/// top and bottom jump to them, and an explicit select lands as given.
pub open spec fn spec_nav_move(e: KtxEvent, sel: Option<usize>, max_len: usize) -> Option<usize>
    recommends
        is_nav_event(e),
{
    let cs = spec_clamp(sel, max_len);
    match e {
        KtxEvent::ListSelect(p) => Some(p),
        KtxEvent::ListOneUp => match cs {
            Some(s) => if s > 0 {
                Some((s - 1) as usize)
            } else {
                cs
            },
            None => None,
        },
        KtxEvent::ListOneDown => match cs {
            Some(s) => if max_len > 0 && s < max_len - 1 {
                Some((s + 1) as usize)
            } else {
                cs
            },
            None => None,
        },
        KtxEvent::ListPageUp => match cs {
            Some(s) => if s > 0 {
                if s >= 10 {
                    Some((s - 10) as usize)
                } else {
                    Some(0usize)
                }
            } else {
                cs
            },
            None => None,
        },
        KtxEvent::ListPageDown => match cs {
            Some(s) => if max_len > 0 && s < max_len - 1 {
                if s + 10 <= max_len - 1 {
                    Some((s + 10) as usize)
                } else {
                    Some((max_len - 1) as usize)
                }
            } else {
                cs
            },
            None => None,
        },
        KtxEvent::ListTop => Some(0usize),
        KtxEvent::ListBottom => Some(sat_dec(max_len)),
        _ => cs,
    }
}

/// Apply one event to a list selection. A navigation event is consumed and
/// moves the selection as `spec_nav_move` says; any other event leaves the
/// (re-clamped) selection alone and bubbles back to the caller.
pub fn handle_list_navigation_event(event: KtxEvent, selection: &mut Option<usize>, max_len: usize) -> (bubbled: Option<
    KtxEvent>)
    ensures
        is_nav_event(event) ==> *final(selection) == spec_nav_move(event, *old(selection), max_len)
            && bubbled is None,
        !is_nav_event(event) ==> *final(selection) == spec_clamp(*old(selection), max_len)
            && bubbled == Some(event),
{
    if let Some(s) = *selection {
        if s >= max_len {
            *selection = Some(if max_len == 0 {
                0
            } else {
                max_len - 1
            });
        }
    }
    match event {
        KtxEvent::ListSelect(pos) => {
            *selection = Some(pos);
            None
        },
        KtxEvent::ListOneUp => {
            if let Some(s) = *selection {
                if s > 0 {
                    *selection = Some(s - 1);
                }
            }
            None
        },
        KtxEvent::ListOneDown => {
            if let Some(s) = *selection {
                if max_len > 0 && s < max_len - 1 {
                    *selection = Some(s + 1);
                }
            }
            None
        },
        KtxEvent::ListPageUp => {
            if let Some(s) = *selection {
                if s > 0 {
                    *selection = Some(if s >= 10 {
                        s - 10
                    } else {
                        0
                    });
                }
            }
            None
        },
        KtxEvent::ListPageDown => {
            if let Some(s) = *selection {
                if max_len > 0 && s < max_len - 1 {
                    *selection = Some(
                        if max_len - 1 - s >= 10 {
                            s + 10
                        } else {
                            max_len - 1
                        },
                    );
                }
            }
            None
        },
        KtxEvent::ListTop => {
            *selection = Some(0);
            None
        },
        KtxEvent::ListBottom => {
            *selection = Some(if max_len == 0 {
                0
            } else {
                max_len - 1
            });
            None
        },
        other => Some(other),
    }
}

/// What a key press means for list navigation: the semantic event to emit
/// (if any), the raw event to bubble when the key is not a navigation key,
/// and the new state of the pending-`g` chord flag, which any non-matching
/// key clears.
pub open spec fn spec_key_nav(event: InputEvent, g_mem: bool) -> (Option<KtxEvent>, Option<
    InputEvent>, bool) {
    match event {
        InputEvent::Key(k, ctrl) => match k {
            Key::Up => (Some(KtxEvent::ListOneUp), None::<InputEvent>, false),
            Key::Down => (Some(KtxEvent::ListOneDown), None::<InputEvent>, false),
            Key::PageUp => (Some(KtxEvent::ListPageUp), None::<InputEvent>, false),
            Key::PageDown => (Some(KtxEvent::ListPageDown), None::<InputEvent>, false),
            Key::Home => (Some(KtxEvent::ListTop), None::<InputEvent>, false),
            Key::End => (Some(KtxEvent::ListBottom), None::<InputEvent>, false),
            Key::Char(c) => if c == 'k' {
                (Some(KtxEvent::ListOneUp), None::<InputEvent>, false)
            } else if c == 'j' {
                (Some(KtxEvent::ListOneDown), None::<InputEvent>, false)
            } else if c == 'u' && ctrl {
                (Some(KtxEvent::ListPageUp), None::<InputEvent>, false)
            } else if c == 'd' && ctrl {
                (Some(KtxEvent::ListPageDown), None::<InputEvent>, false)
            } else if c == 'g' {
                if g_mem {
                    (Some(KtxEvent::ListTop), None::<InputEvent>, false)
                } else {
                    (None::<KtxEvent>, None::<InputEvent>, true)
                }
            } else if c == 'G' {
                (Some(KtxEvent::ListBottom), None::<InputEvent>, false)
            } else if c == '/' {
                (Some(KtxEvent::EnterFilterMode), None::<InputEvent>, false)
            } else {
                (None::<KtxEvent>, Some(event), false)
            },
            _ => (None::<KtxEvent>, Some(event), false),
        },
        _ => (None::<KtxEvent>, Some(event), g_mem),
    }
}

/// Translate a key press into a shared navigation event. Returns the event
/// to emit onto the bus and the raw event to bubble when unhandled; the
/// pending-`g` flag tracks the two-key jump-to-top chord and is cleared by
/// any key that does not continue it.
pub fn handle_list_navigation_keyboard_event(event: InputEvent, g_mem: &mut bool) -> (r: (Option<
    KtxEvent>, Option<InputEvent>))
    ensures
        (r.0, r.1, *final(g_mem)) == spec_key_nav(event, *old(g_mem)),
{
    match event {
        InputEvent::Key(k, ctrl) => match k {
            Key::Up => {
                *g_mem = false;
                (Some(KtxEvent::ListOneUp), None)
            },
            Key::Down => {
                *g_mem = false;
                (Some(KtxEvent::ListOneDown), None)
            },
            Key::PageUp => {
                *g_mem = false;
                (Some(KtxEvent::ListPageUp), None)
            },
            Key::PageDown => {
                *g_mem = false;
                (Some(KtxEvent::ListPageDown), None)
            },
            Key::Home => {
                *g_mem = false;
                (Some(KtxEvent::ListTop), None)
            },
            Key::End => {
                *g_mem = false;
                (Some(KtxEvent::ListBottom), None)
            },
            Key::Char(c) => {
                if c == 'k' {
                    *g_mem = false;
                    (Some(KtxEvent::ListOneUp), None)
                } else if c == 'j' {
                    *g_mem = false;
                    (Some(KtxEvent::ListOneDown), None)
                } else if c == 'u' && ctrl {
                    *g_mem = false;
                    (Some(KtxEvent::ListPageUp), None)
                } else if c == 'd' && ctrl {
                    *g_mem = false;
                    (Some(KtxEvent::ListPageDown), None)
                } else if c == 'g' {
                    if *g_mem {
                        *g_mem = false;
                        (Some(KtxEvent::ListTop), None)
                    } else {
                        *g_mem = true;
                        (None, None)
                    }
                } else if c == 'G' {
                    *g_mem = false;
                    (Some(KtxEvent::ListBottom), None)
                } else if c == '/' {
                    *g_mem = false;
                    (Some(KtxEvent::EnterFilterMode), None)
                } else {
                    *g_mem = false;
                    (None, Some(event))
                }
            },
            _ => {
                *g_mem = false;
                (None, Some(event))
            },
        },
        _ => (None, Some(event)),
    }
}

/// Re-clamping always lands in bounds, whatever the selection was before.
pub proof fn lemma_clamp_in_bounds(sel: Option<usize>, max_len: usize)
    ensures
        in_bounds(spec_clamp(sel, max_len), max_len),
{
}

/// One up or down step from anywhere lands in bounds of the current
/// filtered set.
pub proof fn lemma_step_in_bounds(e: KtxEvent, sel: Option<usize>, max_len: usize)
    requires
        e == KtxEvent::ListOneUp || e == KtxEvent::ListOneDown,
    ensures
        in_bounds(spec_nav_move(e, sel, max_len), max_len),
{
}

/// Fold a sequence of navigation events over a selection.
pub open spec fn apply_nav_events(events: Seq<KtxEvent>, sel: Option<usize>, max_len: usize) -> Option<
    usize>
    decreases events.len(),
{
    if events.len() == 0 {
        sel
    } else {
        apply_nav_events(events.drop_first(), spec_nav_move(events.first(), sel, max_len), max_len)
    }
}

/// For every sequence of single-step up and down events, from any starting
/// selection, the selection stays within the bounds of the current filtered
/// set: inside `[0, max_len - 1]`, or pinned at zero when the set is empty.
pub proof fn lemma_updown_sequence_in_bounds(
    events: Seq<KtxEvent>,
    sel: Option<usize>,
    max_len: usize,
)
    requires
        forall|i: int|
            0 <= i < events.len() ==> events[i] == KtxEvent::ListOneUp || events[i]
                == KtxEvent::ListOneDown,
        events.len() > 0,
    ensures
        in_bounds(apply_nav_events(events, sel, max_len), max_len),
    decreases events.len(),
{
    let moved = spec_nav_move(events.first(), sel, max_len);
    lemma_step_in_bounds(events.first(), sel, max_len);
    if events.len() > 1 {
        lemma_updown_sequence_in_bounds(events.drop_first(), moved, max_len);
    }
}

} // verus!
