//! How one entry of the result list is built: which layout it gets, which
//! style classes, and what its quick-activation label shows.

use vstd::prelude::*;
use vstd::string::*;
use crate::item::{absolute_path, is_absolute_path, Item};
use crate::table::find;
use crate::text::same_text;
use crate::theme::Theme;

verus! {

/// What the builder reads of the list and the configuration.
#[derive(Clone, Copy, Debug, PartialEq, Eq, Structural)]
pub struct ItemContext {
    /// Whether entries are laid out as a grid.
    pub grid: bool,
    /// The entry to highlight, counted from 1; 0 for none.
    pub dmenu_current: u32,
    /// Position of the entry in the list, counted from 0.
    pub position: u32,
    /// Whether quick-activation labels are hidden.
    pub hide_quick_activation: bool,
    /// Whether the layout has a quick-activation label.
    pub has_quick_label: bool,
}

/// What becomes of the quick-activation label.
#[derive(Clone, Debug, PartialEq, Eq)]
pub enum QuickLabel {
    /// It stays as the layout made it.
    Keep,
    /// It is hidden.
    Hidden,
    /// It shows this key binding.
    Shown(String),
}

/// What the builder does for one entry.
#[derive(Clone, Debug, PartialEq, Eq)]
pub struct ItemPlan {
    /// Style classes of the entry's box, in the order they are added.
    pub classes: Vec<String>,
    /// The path that the entry can be dragged as.
    pub drag_path: Option<String>,
    pub quick: QuickLabel,
}

/// What is dragged: the kind of content and its bytes as text.
#[derive(Clone, Debug, PartialEq, Eq)]
pub struct DragPayload {
    pub mime_type: String,
    pub content: String,
}

/// A string with every occurrence of `from` replaced by `to`, found from the
/// left and without overlap. An empty `from` occurs nowhere.
pub open spec fn replaced_text(s: Seq<char>, from: Seq<char>, to: Seq<char>) -> Seq<char>
    decreases s.len(),
{
    if from.len() == 0 || s.len() < from.len() {
        s
    } else if s.subrange(0, from.len() as int) == from {
        to + replaced_text(s.subrange(from.len() as int, s.len() as int), from, to)
    } else {
        seq![s[0]] + replaced_text(s.subrange(1, s.len() as int), from, to)
    }
}

/// The strings of a sequence as plain sequences.
pub open spec fn texts(v: Seq<String>) -> Seq<Seq<char>> {
    Seq::new(v.len(), |i: int| v[i]@)
}

/// The first `n` states without the empty ones, in their order.
pub open spec fn kept_states(states: Seq<String>, n: int) -> Seq<Seq<char>>
    decreases n,
{
    if n <= 0 {
        Seq::empty()
    } else if states[n - 1]@.len() == 0 {
        kept_states(states, n - 1)
    } else {
        kept_states(states, n - 1).push(states[n - 1]@)
    }
}

/// Whether the entry is the highlighted one.
pub open spec fn is_current(ctx: ItemContext) -> bool {
    ctx.dmenu_current != 0 && ctx.dmenu_current == ctx.position + 1
}

/// The style classes of an entry: its provider's tag with `menus:` turned
/// into `menus-`, its states that are not empty, and `current` for the
/// highlighted entry.
pub open spec fn class_list(provider: Seq<char>, states: Seq<String>, ctx: ItemContext) -> Seq<
    Seq<char>,
> {
    seq![replaced_text(provider, "menus:"@, "menus-"@)] + kept_states(states, states.len() as int)
        + (if is_current(ctx) {
        seq!["current"@]
    } else {
        Seq::empty()
    })
}

/// What becomes of the quick-activation label: nothing where the layout has
/// none; hidden where labels are hidden or no binding is left for the
/// entry's position; else the binding of that position. Without bindings it
/// stays as it is.
pub open spec fn quick_label_of(ctx: ItemContext, bindings: Option<Vec<String>>) -> Option<
    Option<Seq<char>>,
> {
    if !ctx.has_quick_label {
        None
    } else if ctx.hide_quick_activation {
        Some(None)
    } else {
        match bindings {
            None => None,
            Some(b) => if ctx.position < b@.len() {
                Some(Some(b@[ctx.position as int]@))
            } else {
                Some(None)
            },
        }
    }
}

impl View for QuickLabel {
    type V = Option<Option<Seq<char>>>;

    /// `None` for a label that is kept, `Some(None)` for a hidden one.
    open spec fn view(&self) -> Option<Option<Seq<char>>> {
        match self {
            QuickLabel::Keep => None,
            QuickLabel::Hidden => Some(None),
            QuickLabel::Shown(s) => Some(Some(s@)),
        }
    }
}

/// Replaces every occurrence of `from` in `s` by `to`.
pub fn replace_text(s: &str, from: &str, to: &str) -> (out: String)
    ensures
        out@ == replaced_text(s@, from@, to@),
{
    let n: usize = s.unicode_len();
    let m: usize = from.unicode_len();
    if m == 0 {
        return String::from_str(s);
    }
    let mut out = String::new();
    let mut i: usize = 0;
    assert(s@.subrange(0, n as int) =~= s@);
    assert(out@ + replaced_text(s@, from@, to@) =~= replaced_text(s@, from@, to@));
    while i < n
        invariant
            i <= n,
            n == s@.len(),
            m == from@.len(),
            m > 0,
            out@ + replaced_text(s@.subrange(i as int, n as int), from@, to@) == replaced_text(
                s@,
                from@,
                to@,
            ),
        decreases n - i,
    {
        let ghost rest = s@.subrange(i as int, n as int);
        let ghost done = out@;
        if m > n - i {
            out.append(s.substring_char(i, n));
            i = n;
            assert(replaced_text(s@.subrange(n as int, n as int), from@, to@) =~= Seq::empty());
            assert(out@ + replaced_text(s@.subrange(n as int, n as int), from@, to@) =~= done
                + rest);
        } else if same_text(s.substring_char(i, i + m), from) {
            out.append(to);
            assert(rest.subrange(0, m as int) =~= s@.subrange(i as int, i + m));
            assert(rest.subrange(m as int, rest.len() as int) =~= s@.subrange(i + m, n as int));
            i += m;
            assert(out@ + replaced_text(s@.subrange(i as int, n as int), from@, to@) =~= done
                + replaced_text(rest, from@, to@));
        } else {
            out.append(s.substring_char(i, i + 1));
            assert(rest.subrange(0, m as int) =~= s@.subrange(i as int, i + m));
            assert(rest.subrange(1, rest.len() as int) =~= s@.subrange(i + 1, n as int));
            assert(seq![rest[0]] =~= s@.subrange(i as int, i + 1));
            i += 1;
            assert(out@ + replaced_text(s@.subrange(i as int, n as int), from@, to@) =~= done
                + replaced_text(rest, from@, to@));
        }
    }
    assert(replaced_text(s@.subrange(n as int, n as int), from@, to@) =~= Seq::empty());
    assert(out@ + Seq::<char>::empty() =~= out@);
    out
}

/// The layout that a theme has for the entries of a provider: the grid
/// layout in a grid, else the list layout. `None` where the theme has none.
pub fn item_layout<'a>(theme: &'a Theme, provider: &str, grid: bool) -> (layout: Option<
    &'a String,
>)
    requires
        theme.wf(),
    ensures
        match layout {
            Some(l) => if grid {
                theme@.grid_items.contains_key(provider@) && theme@.grid_items[provider@] == *l
            } else {
                theme@.items.contains_key(provider@) && theme@.items[provider@] == *l
            },
            None => if grid {
                !theme@.grid_items.contains_key(provider@)
            } else {
                !theme@.items.contains_key(provider@)
            },
        },
{
    if grid {
        find(&theme.grid_items, provider)
    } else {
        find(&theme.items, provider)
    }
}

/// The layout used where the theme's own has no entry box: the list layout
/// of the default theme.
pub fn fallback_item_layout<'a>(default_theme: &'a Theme, provider: &str) -> (layout: Option<
    &'a String,
>)
    requires
        default_theme.wf(),
    ensures
        match layout {
            Some(l) => default_theme@.items.contains_key(provider@)
                && default_theme@.items[provider@] == *l,
            None => !default_theme@.items.contains_key(provider@),
        },
{
    find(&default_theme.items, provider)
}

/// Decides what the quick-activation label shows.
pub fn quick_label(ctx: &ItemContext, bindings: &Option<Vec<String>>) -> (label: QuickLabel)
    ensures
        label@ == quick_label_of(*ctx, *bindings),
{
    if !ctx.has_quick_label {
        return QuickLabel::Keep;
    }
    if ctx.hide_quick_activation {
        return QuickLabel::Hidden;
    }
    match bindings {
        None => QuickLabel::Keep,
        Some(b) => {
            let index: u64 = ctx.position as u64;
            if index < b.len() as u64 {
                QuickLabel::Shown(b[ctx.position as usize].clone())
            } else {
                QuickLabel::Hidden
            }
        },
    }
}

/// Plans one entry of the list: its style classes, its drag affordance where
/// its text is an absolute path, and its quick-activation label.
pub fn create_item(
    item: &Item,
    states: &Vec<String>,
    ctx: &ItemContext,
    bindings: &Option<Vec<String>>,
) -> (plan: ItemPlan)
    ensures
        texts(plan.classes@) == class_list(item.provider@, states@, *ctx),
        absolute_path(item.text@) ==> (plan.drag_path matches Some(p) && p@ == item.text@),
        !absolute_path(item.text@) ==> plan.drag_path is None,
        plan.quick@ == quick_label_of(*ctx, *bindings),
{
    let mut classes: Vec<String> = Vec::new();
    classes.push(replace_text(item.provider.as_str(), "menus:", "menus-"));
    let ghost first = seq![replaced_text(item.provider@, "menus:"@, "menus-"@)];
    assert(texts(classes@) =~= first + kept_states(states@, 0));
    let mut i: usize = 0;
    while i < states.len()
        invariant
            i <= states.len(),
            texts(classes@) == first + kept_states(states@, i as int),
        decreases states.len() - i,
    {
        let ghost before = classes@;
        if states[i].as_str().unicode_len() != 0 {
            classes.push(states[i].clone());
            assert(texts(classes@) =~= texts(before).push(states@[i as int]@));
        }
        i += 1;
        assert(texts(classes@) =~= first + kept_states(states@, i as int));
    }
    let current = ctx.dmenu_current != 0 && ctx.dmenu_current as u64 == ctx.position as u64 + 1;
    let ghost before = classes@;
    if current {
        classes.push(String::from_str("current"));
        assert(texts(classes@) =~= texts(before).push("current"@));
    }
    assert(texts(classes@) =~= class_list(item.provider@, states@, *ctx));
    let drag_path = if is_absolute_path(item.text.as_str()) {
        Some(item.text.clone())
    } else {
        None
    };
    ItemPlan { classes, drag_path, quick: quick_label(ctx, bindings) }
}

/// What dragging a file carries: a list of addresses with the file's one,
/// followed by a line feed.
pub fn create_drag_source(uri: &str) -> (payload: DragPayload)
    ensures
        payload.mime_type@ == "text/uri-list"@,
        payload.content@ == uri@ + "\n"@,
{
    let mut content = String::from_str(uri);
    content.append("\n");
    DragPayload { mime_type: String::from_str("text/uri-list"), content }
}

} // verus!
