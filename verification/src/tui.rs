//! The decisions of the image browser: how key presses and ticks change its state, which
//! action or side effect they ask for, and how it takes the outcome of an action.
use vstd::prelude::*;

use crate::form_layout::LineColor;
use crate::image_protocol_cache::{has_key, ImageProtocolCache};
use crate::images::ImageWithTags;
use crate::mime_type::{format_of_extension, is_animated_spec};
use crate::paths::path_extension_of;
use crate::tags::Tag;
use crate::text::ascii_lowercase_spec;
use crate::key::{Key, KeyCode};
use crate::scroll_list::{down_spec, up_spec, selection_ok, ScrollList, ScrollListView, opt_int};
use crate::text_input::{edit, event_matches, key_allowed, TextInput, TextInputEvent};

verus! {

/// An action on the stored images that the browser asks for.
#[derive(Debug, Clone, PartialEq, Eq)]
pub enum Action {
    Rename { index: usize, new_name: String },
    Tag { index: usize, tag: String },
    Untag { index: usize, tag: String },
}

/// What the browser is told.
#[derive(Debug, Clone, Copy, PartialEq, Eq)]
pub enum TuiEvent {
    Key(Key),
    Tick,
    /// Any other terminal event (mouse, focus, paste, resize, render).
    Other,
}

/// A side effect outside the browser's state that an event asks for.
#[derive(Debug, Clone, PartialEq, Eq)]
pub enum Effect {
    Nothing,
    /// The selection changed: show the preview of the newly selected image.
    LoadPreview,
    /// Copy the image file at this path to the clipboard.
    CopyImage(String),
    /// Open the image file at this path with the desktop's viewer.
    OpenImage(String),
}

/// What to do after an action finished.
#[derive(Debug, Clone, Copy, PartialEq, Eq)]
pub struct FollowUp {
    /// Read the images again from the database.
    pub reload: bool,
    /// Show the preview of the selected image again (after the reload).
    pub reload_preview: bool,
}

/// The state of the browser, as contracts speak of it.
pub struct KuraView {
    pub images: Seq<ImageWithTags>,
    pub list: ScrollListView,
    pub should_quit: bool,
    pub rename_input: Option<TextInput>,
    pub rename_error: Option<Seq<char>>,
    pub tag_input: Option<TextInput>,
    pub untag_input: Option<TextInput>,
    pub tag_error: Option<Seq<char>>,
}

/// The state of the image browser.
pub struct KuraState {
    images: Vec<ImageWithTags>,
    scroll_list: ScrollList,
    should_quit: bool,
    rename_input: Option<TextInput>,
    rename_error: Option<String>,
    tag_input: Option<TextInput>,
    untag_input: Option<TextInput>,
    tag_error: Option<String>,
}

/// Whether two selections are the same.
fn same_selection(a: Option<usize>, b: Option<usize>) -> (r: bool)
    ensures
        r == (opt_int(a) == opt_int(b)),
{
    match (a, b) {
        (Some(x), Some(y)) => x == y,
        (None, None) => true,
        _ => false,
    }
}

/// The message of a failed outcome.
pub open spec fn result_chars(r: Result<(), String>) -> Result<(), Seq<char>> {
    match r {
        Ok(_) => Ok(()),
        Err(e) => Err(e@),
    }
}

/// The state after `action` finished with `outcome`.
pub open spec fn finish_spec(o: KuraView, action: Action, outcome: Result<(), Seq<char>>) -> KuraView {
    match (action, outcome) {
        (Action::Rename { .. }, Ok(_)) => KuraView { rename_input: None, ..o },
        (Action::Rename { .. }, Err(e)) => KuraView { rename_error: Some(e), ..o },
        (Action::Tag { .. }, Ok(_)) => KuraView { tag_input: None, tag_error: None, ..o },
        (Action::Untag { .. }, Ok(_)) => KuraView { untag_input: None, tag_error: None, ..o },
        (_, Err(e)) => KuraView { tag_error: Some(e), ..o },
    }
}

/// The selection kept when the list is refilled with `len` items.
pub open spec fn kept_selection(selected: Option<int>, len: int) -> Option<int> {
    if len == 0 {
        None
    } else {
        match selected {
            Some(i) => Some(
                if i < len - 1 {
                    i
                } else {
                    len - 1
                },
            ),
            None => Some(0),
        }
    }
}

/// The state after the images are read again.
pub open spec fn replace_spec(o: KuraView, images: Seq<ImageWithTags>) -> KuraView {
    KuraView {
        images,
        list: ScrollListView {
            selected: kept_selection(o.list.selected, images.len() as int),
            len: images.len() as int,
            wrap: false,
        },
        ..o
    }
}

/// The characters of an optional string slice.
pub open spec fn opt_str(s: Option<&str>) -> Option<Seq<char>> {
    match s {
        Some(t) => Some(t@),
        None => None,
    }
}

/// Images next to `selected` whose previews are worth preparing ahead: up to two on either
/// side, in the order two before, one before, one after, two after, those that exist.
pub open spec fn neighbors_spec(selected: int, len: int) -> Seq<int> {
    let cands = seq![selected - 2, selected - 1, selected + 1, selected + 2];
    cands.filter(|i: int| 0 <= i < len)
}

/// The images next to `selected` (see [`neighbors_spec`]).
pub fn preview_neighbors(selected: usize, len: usize) -> (v: Vec<usize>)
    requires
        selected < len,
    ensures
        v@.map_values(|i: usize| i as int) == neighbors_spec(selected as int, len as int),
{
    let mut v: Vec<usize> = Vec::new();
    if selected >= 2 {
        v.push(selected - 2);
    }
    if selected >= 1 {
        v.push(selected - 1);
    }
    if len - selected > 1 {
        v.push(selected + 1);
    }
    if len - selected > 2 {
        v.push(selected + 2);
    }
    proof {
        let s = selected as int;
        let cands = seq![s - 2, s - 1, s + 1, s + 2];
        reveal_with_fuel(Seq::filter, 5);
        assert(cands.take(4) =~= cands);
        assert(v@.map_values(|i: usize| i as int) =~= neighbors_spec(s, len as int));
    }
    v
}

/// The indices among `idx` that name an image whose preview is not in `cache`, in order.
pub open spec fn uncached<P>(idx: Seq<int>, images: Seq<ImageWithTags>, cache: Seq<(Seq<char>, P)>) -> Seq<int>
    decreases idx.len(),
{
    if idx.len() == 0 {
        Seq::empty()
    } else {
        let rest = uncached(idx.drop_last(), images, cache);
        let i = idx.last();
        if 0 <= i < images.len() && !has_key(cache, images[i].image.hash.0@) {
            rest.push(i)
        } else {
            rest
        }
    }
}

/// The characters of an optional string.
pub open spec fn opt_chars(s: Option<String>) -> Option<Seq<char>> {
    match s {
        Some(t) => Some(t@),
        None => None,
    }
}

/// The input that receives keys: rename first, then tag, then untag.
pub open spec fn active_input(v: KuraView) -> Option<TextInput> {
    if v.rename_input is Some {
        v.rename_input
    } else if v.tag_input is Some {
        v.tag_input
    } else {
        v.untag_input
    }
}

/// Whether the browser can take `event` now: the input receiving keys must accept the key.
pub open spec fn event_allowed(v: KuraView, event: TuiEvent) -> bool {
    match event {
        TuiEvent::Key(k) => match active_input(v) {
            Some(t) => key_allowed(t.text(), t.cursor_pos(), k),
            None => true,
        },
        _ => true,
    }
}

/// `ni` is the input `t` after `key`, and `e` the event it reported.
pub open spec fn input_step(t: TextInput, key: Key, e: TextInputEvent, ni: TextInput) -> bool {
    &&& ni.text() == edit(t.text(), t.cursor_pos(), key).0
    &&& ni.cursor_pos() == edit(t.text(), t.cursor_pos(), key).1
    &&& event_matches(e, t.text(), key)
}

/// The selected index, when the selection names an image.
pub open spec fn selected_index(v: KuraView) -> Option<int> {
    match v.list.selected {
        Some(i) => if 0 <= i < v.images.len() {
            Some(i)
        } else {
            None
        },
        None => None,
    }
}

/// A key in the rename input: Enter asks to rename the selected image (the input stays open
/// until the rename succeeds), Esc closes the input and clears its error.
pub open spec fn rename_key_step(o: KuraView, key: Key, a: Option<Action>, n: KuraView) -> bool {
    exists|e: TextInputEvent, ni: TextInput|
        {
            &&& input_step(o.rename_input->0, key, e, ni)
            &&& match e {
                TextInputEvent::Cancelled => a is None && n == KuraView {
                    rename_input: None,
                    rename_error: None,
                    ..o
                },
                TextInputEvent::Submitted(v) => {
                    &&& n == KuraView { rename_input: Some(ni), ..o }
                    &&& match o.list.selected {
                        Some(i) => a matches Some(Action::Rename { index, new_name }) && index == i
                            && new_name@ == v@,
                        None => a is None,
                    }
                },
                _ => a is None && n == KuraView { rename_input: Some(ni), ..o },
            }
        }
}

/// The tag input (`untag` false) or the untag input.
pub open spec fn tag_input_of(o: KuraView, untag: bool) -> TextInput {
    if untag {
        o.untag_input->0
    } else {
        o.tag_input->0
    }
}

/// A key in the tag (`untag` false) or untag input: Enter with a non-empty text asks to add
/// (or remove) that tag on the selected image; Esc closes the input and clears the tag error.
pub open spec fn tag_key_step(o: KuraView, untag: bool, key: Key, a: Option<Action>, n: KuraView) -> bool {
    exists|e: TextInputEvent, ni: TextInput|
        {
            &&& #[trigger] input_step(tag_input_of(o, untag), key, e, ni)
            &&& match e {
                TextInputEvent::Cancelled => a is None && n == (if untag {
                    KuraView { untag_input: None, tag_error: None, ..o }
                } else {
                    KuraView { tag_input: None, tag_error: None, ..o }
                }),
                _ => {
                    &&& n == (if untag {
                        KuraView { untag_input: Some(ni), ..o }
                    } else {
                        KuraView { tag_input: Some(ni), ..o }
                    })
                    &&& match (e, o.list.selected) {
                        (TextInputEvent::Submitted(v), Some(i)) => if v@.len() > 0 {
                            if untag {
                                a matches Some(Action::Untag { index, tag }) && index == i && tag@ == v@
                            } else {
                                a matches Some(Action::Tag { index, tag }) && index == i && tag@ == v@
                            }
                        } else {
                            a is None
                        },
                        _ => a is None,
                    }
                },
            }
        }
}

/// A key with no input open: q or Esc quits, j or Down and k or Up move the selection (and
/// ask for its preview when it moved), Enter copies the selected image, o opens it, r opens
/// the rename input with the image's name, t and u open the tag and untag inputs.
pub open spec fn browse_key_step(o: KuraView, key: Key, eff: Effect, n: KuraView) -> bool {
    match key.code {
        KeyCode::Char('q') | KeyCode::Esc => eff == Effect::Nothing && n == KuraView {
            should_quit: true,
            ..o
        },
        KeyCode::Char('j') | KeyCode::Down => {
            &&& n == KuraView { list: ScrollListView { selected: down_spec(o.list), ..o.list }, ..o }
            &&& eff == (if down_spec(o.list) != o.list.selected {
                Effect::LoadPreview
            } else {
                Effect::Nothing
            })
        },
        KeyCode::Char('k') | KeyCode::Up => {
            &&& n == KuraView { list: ScrollListView { selected: up_spec(o.list), ..o.list }, ..o }
            &&& eff == (if up_spec(o.list) != o.list.selected {
                Effect::LoadPreview
            } else {
                Effect::Nothing
            })
        },
        KeyCode::Enter => n == o && match selected_index(o) {
            Some(i) => eff matches Effect::CopyImage(p) && p@ == o.images[i].image.file_path@,
            None => eff == Effect::Nothing,
        },
        KeyCode::Char('o') => n == o && match selected_index(o) {
            Some(i) => eff matches Effect::OpenImage(p) && p@ == o.images[i].image.file_path@,
            None => eff == Effect::Nothing,
        },
        KeyCode::Char('r') => eff == Effect::Nothing && match selected_index(o) {
            Some(i) => n.rename_input matches Some(t) && t.text() == o.images[i].image.name@
                && t.cursor_pos() == o.images[i].image.name@.len() && n == KuraView {
                rename_input: n.rename_input,
                ..o
            },
            None => n == o,
        },
        KeyCode::Char('t') => eff == Effect::Nothing && match selected_index(o) {
            Some(_) => n.tag_input matches Some(t) && t.text().len() == 0 && t.cursor_pos() == 0
                && n == KuraView { tag_input: n.tag_input, ..o },
            None => n == o,
        },
        KeyCode::Char('u') => eff == Effect::Nothing && match selected_index(o) {
            Some(_) => n.untag_input matches Some(t) && t.text().len() == 0 && t.cursor_pos() == 0
                && n == KuraView { untag_input: n.untag_input, ..o },
            None => n == o,
        },
        _ => eff == Effect::Nothing && n == o,
    }
}

/// One event: keys go to the open input, or browse; a tick clears the rename error.
pub open spec fn kura_event_step(o: KuraView, event: TuiEvent, a: Option<Action>, eff: Effect, n: KuraView) -> bool {
    match event {
        TuiEvent::Key(key) => if o.rename_input is Some {
            eff == Effect::Nothing && rename_key_step(o, key, a, n)
        } else if o.tag_input is Some {
            eff == Effect::Nothing && tag_key_step(o, false, key, a, n)
        } else if o.untag_input is Some {
            eff == Effect::Nothing && tag_key_step(o, true, key, a, n)
        } else {
            a is None && browse_key_step(o, key, eff, n)
        },
        TuiEvent::Tick => a is None && eff == Effect::Nothing && n == KuraView {
            rename_error: None,
            ..o
        },
        TuiEvent::Other => a is None && eff == Effect::Nothing && n == o,
    }
}

/// Whether the selected image is of a format that may be animated (judged by its extension).
pub open spec fn selected_is_animated(v: KuraView) -> bool {
    match selected_index(v) {
        Some(i) => match path_extension_of(v.images[i].image.file_path@) {
            Some(e) => match format_of_extension(ascii_lowercase_spec(e)) {
                Some(m) => is_animated_spec(m),
                None => false,
            },
            None => false,
        },
        None => false,
    }
}

/// The title of the preview pane: it says how to see an animated image move.
pub open spec fn preview_title_spec(v: KuraView) -> Seq<char> {
    if selected_is_animated(v) {
        "Preview  [animated \u{2014} press o to open]"@
    } else {
        "Preview"@
    }
}

/// What the preview pane says while it shows no image.
pub open spec fn preview_message_spec(v: KuraView) -> Seq<char> {
    if v.images.len() == 0 {
        "No images found."@
    } else {
        "Loading..."@
    }
}

/// The texts of coloured pieces.
pub open spec fn spans_view(s: Seq<(String, LineColor)>) -> Seq<(Seq<char>, LineColor)> {
    s.map_values(|p: (String, LineColor)| (p.0@, p.1))
}

/// Each tag in yellow followed by two plain spaces.
pub open spec fn tag_pieces(tags: Seq<Tag>) -> Seq<(Seq<char>, LineColor)>
    decreases tags.len(),
{
    if tags.len() == 0 {
        Seq::empty()
    } else {
        tag_pieces(tags.drop_last()) + seq![(tags.last().tag@, LineColor::Yellow), ("  "@, LineColor::Plain)]
    }
}

/// The tag line under the preview: nothing without a selected image, a grey "no tags" for
/// an image without tags, else its tags.
pub open spec fn tag_line_spec(v: KuraView) -> Seq<(Seq<char>, LineColor)> {
    match selected_index(v) {
        Some(i) => if v.images[i].tags@.len() == 0 {
            seq![("no tags"@, LineColor::DarkGray)]
        } else {
            tag_pieces(v.images[i].tags@)
        },
        None => Seq::empty(),
    }
}

impl View for KuraState {
    type V = KuraView;

    closed spec fn view(&self) -> KuraView {
        KuraView {
            images: self.images@,
            list: self.scroll_list@,
            should_quit: self.should_quit,
            rename_input: self.rename_input,
            rename_error: opt_chars(self.rename_error),
            tag_input: self.tag_input,
            untag_input: self.untag_input,
            tag_error: opt_chars(self.tag_error),
        }
    }
}

impl KuraState {
    #[verifier::type_invariant]
    spec fn list_fits_images(self) -> bool {
        &&& self.scroll_list@.len == self.images@.len()
        &&& !self.scroll_list@.wrap
    }

    /// A browser over `images`, the first selected, no input open.
    pub fn new(images: Vec<ImageWithTags>) -> (s: KuraState)
        ensures
            s@.images == images@,
            s@.list == (ScrollListView {
                selected: if images@.len() > 0 {
                    Some(0)
                } else {
                    None
                },
                len: images@.len() as int,
                wrap: false,
            }),
            !s@.should_quit,
            s@.rename_input is None && s@.rename_error is None,
            s@.tag_input is None && s@.untag_input is None && s@.tag_error is None,
    {
        let list = ScrollList::new(images.len());
        KuraState {
            images,
            scroll_list: list,
            should_quit: false,
            rename_input: None,
            rename_error: None,
            tag_input: None,
            untag_input: None,
            tag_error: None,
        }
    }

    /// The selection always spans the images, and it stops at the first and last image
    /// instead of wrapping round.
    pub fn list_len_is_image_count(&self)
        ensures
            self@.list.len == self@.images.len(),
            !self@.list.wrap,
            selection_ok(self@.list),
    {
        proof {
            use_type_invariant(self);
        }
        let _ = self.scroll_list.selected();
    }

    /// The images next to the selection (see [`neighbors_spec`]) whose previews are not in
    /// `cache` yet, so worth preparing; none when nothing is selected.
    pub fn neighbors_to_prepare<P>(&self, cache: &ImageProtocolCache<P>) -> (v: Vec<usize>)
        ensures
            v@.map_values(|i: usize| i as int) == match self@.list.selected {
                Some(s) => uncached(neighbors_spec(s, self@.images.len() as int), self@.images, cache@),
                None => Seq::<int>::empty(),
            },
    {
        proof {
            use_type_invariant(self);
        }
        let mut out: Vec<usize> = Vec::new();
        let sel = match self.scroll_list.selected() {
            Some(i) => i,
            None => {
                assert(out@.map_values(|i: usize| i as int) =~= Seq::<int>::empty());
                return out;
            },
        };
        let ns = preview_neighbors(sel, self.images.len());
        let ghost nsv = ns@.map_values(|i: usize| i as int);
        let mut k: usize = 0;
        while k < ns.len()
            invariant
                k <= ns@.len(),
                nsv == ns@.map_values(|i: usize| i as int),
                out@.map_values(|i: usize| i as int) == uncached(nsv.take(k as int), self@.images, cache@),
            decreases ns@.len() - k,
        {
            let i = ns[k];
            let ghost before = out@;
            proof {
                assert(nsv.take(k + 1).drop_last() =~= nsv.take(k as int));
                assert(nsv.take(k + 1).last() == i as int);
            }
            if i < self.images.len() && !cache.contains(self.images[i].image.hash.as_str()) {
                out.push(i);
                assert(out@.map_values(|j: usize| j as int) =~= before.map_values(|j: usize| j as int).push(i as int));
            }
            k += 1;
        }
        assert(nsv.take(ns@.len() as int) =~= nsv);
        out
    }

    /// Handles one event (see [`kura_event_step`]): the state changes, and the event may ask
    /// for an action on the stored images and for a side effect.
    pub fn handle_event(&mut self, event: &TuiEvent) -> (r: (Option<Action>, Effect))
        requires
            event_allowed(old(self)@, *event),
        ensures
            kura_event_step(old(self)@, *event, r.0, r.1, final(self)@),
    {
        proof {
            use_type_invariant(&*self);
        }
        let mut tmp = KuraState::new(Vec::new());
        std::mem::swap(&mut tmp, self);
        let KuraState {
            images,
            mut scroll_list,
            mut should_quit,
            mut rename_input,
            mut rename_error,
            mut tag_input,
            mut untag_input,
            mut tag_error,
        } = tmp;
        let ghost o = old(self)@;
        let ghost mut wit_e = TextInputEvent::Ignored;
        let ghost mut wit_t: TextInput = arbitrary();
        let mut action: Option<Action> = None;
        let mut effect = Effect::Nothing;
        match event {
            TuiEvent::Key(key) => {
                if rename_input.is_some() {
                    let mut input = rename_input.unwrap();
                    let ghost t0 = input;
                    let e = input.handle_key(key);
                    proof {
                        assert(input_step(t0, *key, e, input));
                        wit_e = e;
                        wit_t = input;
                    }
                    match e {
                        TextInputEvent::Submitted(val) => {
                            rename_input = Some(input);
                            match scroll_list.selected() {
                                Some(index) => {
                                    action = Some(Action::Rename { index, new_name: val });
                                },
                                None => {},
                            }
                        },
                        TextInputEvent::Cancelled => {
                            rename_input = None;
                            rename_error = None;
                        },
                        _ => {
                            rename_input = Some(input);
                        },
                    }
                } else if tag_input.is_some() {
                    let mut input = tag_input.unwrap();
                    let ghost t0 = input;
                    let e = input.handle_key(key);
                    proof {
                        assert(input_step(t0, *key, e, input));
                        wit_e = e;
                        wit_t = input;
                    }
                    match e {
                        TextInputEvent::Submitted(val) => {
                            tag_input = Some(input);
                            if !val.as_str().is_empty() {
                                match scroll_list.selected() {
                                    Some(index) => {
                                        action = Some(Action::Tag { index, tag: val });
                                    },
                                    None => {},
                                }
                            }
                        },
                        TextInputEvent::Cancelled => {
                            tag_input = None;
                            tag_error = None;
                        },
                        _ => {
                            tag_input = Some(input);
                        },
                    }
                } else if untag_input.is_some() {
                    let mut input = untag_input.unwrap();
                    let ghost t0 = input;
                    let e = input.handle_key(key);
                    proof {
                        assert(input_step(t0, *key, e, input));
                        wit_e = e;
                        wit_t = input;
                    }
                    match e {
                        TextInputEvent::Submitted(val) => {
                            untag_input = Some(input);
                            if !val.as_str().is_empty() {
                                match scroll_list.selected() {
                                    Some(index) => {
                                        action = Some(Action::Untag { index, tag: val });
                                    },
                                    None => {},
                                }
                            }
                        },
                        TextInputEvent::Cancelled => {
                            untag_input = None;
                            tag_error = None;
                        },
                        _ => {
                            untag_input = Some(input);
                        },
                    }
                } else {
                    let selected = scroll_list.selected();
                    let sel_image: Option<usize> = match selected {
                        Some(i) => if i < images.len() {
                            Some(i)
                        } else {
                            None
                        },
                        None => None,
                    };
                    match key.code {
                        KeyCode::Char('q') | KeyCode::Esc => {
                            should_quit = true;
                        },
                        KeyCode::Char('j') | KeyCode::Down => {
                            scroll_list.scroll_down();
                            if !same_selection(scroll_list.selected(), selected) {
                                effect = Effect::LoadPreview;
                            }
                        },
                        KeyCode::Char('k') | KeyCode::Up => {
                            scroll_list.scroll_up();
                            if !same_selection(scroll_list.selected(), selected) {
                                effect = Effect::LoadPreview;
                            }
                        },
                        KeyCode::Enter => {
                            if let Some(i) = sel_image {
                                effect = Effect::CopyImage(images[i].image.file_path.clone());
                            }
                        },
                        KeyCode::Char('o') => {
                            if let Some(i) = sel_image {
                                effect = Effect::OpenImage(images[i].image.file_path.clone());
                            }
                        },
                        KeyCode::Char('r') => {
                            if let Some(i) = sel_image {
                                rename_input = Some(TextInput::new(images[i].image.name.clone()));
                            }
                        },
                        KeyCode::Char('t') => {
                            if sel_image.is_some() {
                                tag_input = Some(TextInput::empty());
                            }
                        },
                        KeyCode::Char('u') => {
                            if sel_image.is_some() {
                                untag_input = Some(TextInput::empty());
                            }
                        },
                        _ => {},
                    }
                }
            },
            TuiEvent::Tick => {
                rename_error = None;
            },
            TuiEvent::Other => {},
        }
        *self = KuraState {
            images,
            scroll_list,
            should_quit,
            rename_input,
            rename_error,
            tag_input,
            untag_input,
            tag_error,
        };
        proof {
            match *event {
                TuiEvent::Key(key) => {
                    if o.rename_input is Some {
                        assert(rename_key_step(o, key, action, self@));
                    } else if o.tag_input is Some {
                        assert(input_step(tag_input_of(o, false), key, wit_e, wit_t));
                        assert(tag_key_step(o, false, key, action, self@));
                    } else if o.untag_input is Some {
                        assert(input_step(tag_input_of(o, true), key, wit_e, wit_t));
                        assert(tag_key_step(o, true, key, action, self@));
                    } else {
                        assert(browse_key_step(o, key, effect, self@));
                    }
                },
                TuiEvent::Tick => {},
                TuiEvent::Other => {},
            }
        }
        (action, effect)
    }

    /// Takes the outcome of `action` (the message of its error, if it failed): success closes
    /// the action's input (and clears the tag error for tags) and asks for a reload, a
    /// failure shows its message.
    pub fn finish_action(&mut self, action: &Action, outcome: Result<(), String>) -> (f: FollowUp)
        ensures
            final(self)@ == finish_spec(old(self)@, *action, result_chars(outcome)),
            f == (FollowUp {
                reload: outcome is Ok,
                reload_preview: outcome is Ok && action is Rename,
            }),
    {
        proof {
            use_type_invariant(&*self);
        }
        let mut tmp = KuraState::new(Vec::new());
        std::mem::swap(&mut tmp, self);
        let KuraState {
            images,
            scroll_list,
            should_quit,
            mut rename_input,
            mut rename_error,
            mut tag_input,
            mut untag_input,
            mut tag_error,
        } = tmp;
        let ok = outcome.is_ok();
        let is_rename = match action {
            Action::Rename { .. } => true,
            _ => false,
        };
        match (action, outcome) {
            (Action::Rename { .. }, Ok(_)) => {
                rename_input = None;
            },
            (Action::Rename { .. }, Err(e)) => {
                rename_error = Some(e);
            },
            (Action::Tag { .. }, Ok(_)) => {
                tag_input = None;
                tag_error = None;
            },
            (Action::Untag { .. }, Ok(_)) => {
                untag_input = None;
                tag_error = None;
            },
            (_, Err(e)) => {
                tag_error = Some(e);
            },
        }
        *self = KuraState {
            images,
            scroll_list,
            should_quit,
            rename_input,
            rename_error,
            tag_input,
            untag_input,
            tag_error,
        };
        FollowUp { reload: ok, reload_preview: ok && is_rename }
    }

    /// Shows freshly read images, keeping the selection's position (moved to the last image
    /// when the list got shorter).
    pub fn replace_images(&mut self, images: Vec<ImageWithTags>)
        ensures
            final(self)@ == replace_spec(old(self)@, images@),
    {
        proof {
            use_type_invariant(&*self);
        }
        let mut tmp = KuraState::new(Vec::new());
        std::mem::swap(&mut tmp, self);
        let KuraState {
            images: _,
            scroll_list,
            should_quit,
            rename_input,
            rename_error,
            tag_input,
            untag_input,
            tag_error,
        } = tmp;
        let selected = scroll_list.selected();
        let n = images.len();
        let mut list = ScrollList::new(n);
        if let Some(i) = selected {
            let clamped = if n == 0 {
                0
            } else if i < n - 1 {
                i
            } else {
                n - 1
            };
            list.select(clamped);
        }
        *self = KuraState {
            images,
            scroll_list: list,
            should_quit,
            rename_input,
            rename_error,
            tag_input,
            untag_input,
            tag_error,
        };
    }

    /// Whether a preview prepared for image `index` is shown now (it is for the selected
    /// image, or image 0 when nothing is selected) rather than kept for later.
    pub fn shows_preview_of(&self, index: usize) -> (b: bool)
        ensures
            b == (index == match self@.list.selected {
                Some(i) => i,
                None => 0,
            }),
    {
        let sel = match self.scroll_list.selected() {
            Some(i) => i,
            None => 0,
        };
        index == sel
    }

    /// The title of the preview pane (see [`preview_title_spec`]).
    pub fn preview_title(&self) -> (s: &'static str)
        ensures
            s@ == preview_title_spec(self@),
    {
        let animated = match self.selected_image() {
            Some(img) => match img.image.mime_type() {
                Some(m) => m.is_animated(),
                None => false,
            },
            None => false,
        };
        if animated {
            "Preview  [animated \u{2014} press o to open]"
        } else {
            "Preview"
        }
    }

    /// What the preview pane says while it shows no image (see [`preview_message_spec`]).
    pub fn preview_message(&self) -> (s: &'static str)
        ensures
            s@ == preview_message_spec(self@),
    {
        if self.images.len() == 0 {
            "No images found."
        } else {
            "Loading..."
        }
    }

    /// The tag line under the preview (see [`tag_line_spec`]).
    pub fn tag_line(&self) -> (v: Vec<(String, LineColor)>)
        ensures
            spans_view(v@) == tag_line_spec(self@),
    {
        let mut out: Vec<(String, LineColor)> = Vec::new();
        match self.selected_image() {
            Some(img) => {
                let n = img.tags.len();
                if n == 0 {
                    out.push((String::from_str("no tags"), LineColor::DarkGray));
                    assert(spans_view(out@) =~= tag_line_spec(self@));
                } else {
                    let mut i: usize = 0;
                    while i < n
                        invariant
                            n == img.tags@.len(),
                            i <= n,
                            spans_view(out@) == tag_pieces(img.tags@.subrange(0, i as int)),
                        decreases n - i,
                    {
                        let ghost before = out@;
                        out.push((img.tags[i].tag.clone(), LineColor::Yellow));
                        out.push((String::from_str("  "), LineColor::Plain));
                        proof {
                            let p = img.tags@.subrange(0, i + 1);
                            assert(p.drop_last() =~= img.tags@.subrange(0, i as int));
                            assert(spans_view(out@) =~= spans_view(before) + seq![
                                (img.tags@[i as int].tag@, LineColor::Yellow),
                                ("  "@, LineColor::Plain),
                            ]);
                        }
                        i += 1;
                    }
                    assert(img.tags@.subrange(0, n as int) =~= img.tags@);
                }
            },
            None => {
                assert(spans_view(out@) =~= Seq::<(Seq<char>, LineColor)>::empty());
            },
        }
        out
    }

    /// The images.
    pub fn images(&self) -> (v: &Vec<ImageWithTags>)
        ensures
            v@ == self@.images,
    {
        &self.images
    }

    /// The selected index.
    pub fn selected(&self) -> (i: Option<usize>)
        ensures
            opt_int(i) == self@.list.selected,
    {
        self.scroll_list.selected()
    }

    /// The selected image.
    pub fn selected_image(&self) -> (img: Option<&ImageWithTags>)
        ensures
            match selected_index(self@) {
                Some(i) => img == Some(&self@.images[i]),
                None => img is None,
            },
    {
        match self.scroll_list.selected() {
            Some(i) => if i < self.images.len() {
                Some(&self.images[i])
            } else {
                None
            },
            None => None,
        }
    }

    /// Whether the browser should close.
    pub fn should_quit(&self) -> (b: bool)
        ensures
            b == self@.should_quit,
    {
        self.should_quit
    }

    /// The open input with its error and title, if any: rename, then tag, then untag.
    pub fn active_input(&self) -> (r: Option<(&TextInput, Option<&str>, &'static str)>)
        ensures
            match r {
                Some((t, err, title)) => {
                    &&& Some(*t) == active_input(self@)
                    &&& if self@.rename_input is Some {
                        title@ == "Rename"@ && opt_str(err) == self@.rename_error
                    } else if self@.tag_input is Some {
                        title@ == "Add tag"@ && opt_str(err) == self@.tag_error
                    } else {
                        title@ == "Remove tag"@ && opt_str(err) == self@.tag_error
                    }
                },
                None => active_input(self@) is None,
            },
    {
        let tag_err = match &self.tag_error {
            Some(e) => Some(e.as_str()),
            None => None,
        };
        if let Some(t) = &self.rename_input {
            let err = match &self.rename_error {
                Some(e) => Some(e.as_str()),
                None => None,
            };
            Some((t, err, "Rename"))
        } else if let Some(t) = &self.tag_input {
            Some((t, tag_err, "Add tag"))
        } else if let Some(t) = &self.untag_input {
            Some((t, tag_err, "Remove tag"))
        } else {
            None
        }
    }
}

} // verus!
