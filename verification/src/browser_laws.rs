//! What events and finished actions do to the image browser, stated over its state before and
//! after.
use vstd::prelude::*;

use crate::images::ImageWithTags;
use crate::key::{Key, KeyCode};
use crate::scroll_list::ScrollListView;
use crate::text_input::{TextInput, TextInputEvent};
use crate::tui::{finish_spec, input_step, kura_event_step, replace_spec, tag_input_of, Action, Effect, KuraView, TuiEvent};

verus! {

/// No input is open: keys browse.
pub open spec fn browsing(o: KuraView) -> bool {
    o.rename_input is None && o.tag_input is None && o.untag_input is None
}

/// While browsing, q and Esc close the browser and do nothing else.
pub proof fn law_q_and_escape_quit(o: KuraView, key: Key, a: Option<Action>, eff: Effect, n: KuraView)
    requires
        browsing(o),
        key.code == KeyCode::Char('q') || key.code == KeyCode::Esc,
        kura_event_step(o, TuiEvent::Key(key), a, eff, n),
    ensures
        n.should_quit,
        n == (KuraView { should_quit: true, ..o }),
        a is None,
        eff == Effect::Nothing,
{
}

/// While browsing a list that does not wrap, j or Down selects the next image and asks for
/// its preview, unless the last image is selected, where nothing happens.
pub proof fn law_down_selects_the_next_image(o: KuraView, key: Key, i: int, a: Option<Action>, eff: Effect, n: KuraView)
    requires
        browsing(o),
        !o.list.wrap,
        o.list.selected == Some(i),
        0 <= i < o.list.len,
        key.code == KeyCode::Char('j') || key.code == KeyCode::Down,
        kura_event_step(o, TuiEvent::Key(key), a, eff, n),
    ensures
        a is None,
        i + 1 < o.list.len ==> n == (KuraView { list: ScrollListView { selected: Some(i + 1), ..o.list }, ..o })
            && eff == Effect::LoadPreview,
        i + 1 == o.list.len ==> n == o && eff == Effect::Nothing,
{
}

/// While browsing a list that does not wrap, k or Up selects the previous image and asks for
/// its preview, unless the first image is selected, where nothing happens.
pub proof fn law_up_selects_the_previous_image(o: KuraView, key: Key, i: int, a: Option<Action>, eff: Effect, n: KuraView)
    requires
        browsing(o),
        !o.list.wrap,
        o.list.selected == Some(i),
        0 <= i < o.list.len,
        key.code == KeyCode::Char('k') || key.code == KeyCode::Up,
        kura_event_step(o, TuiEvent::Key(key), a, eff, n),
    ensures
        a is None,
        i > 0 ==> n == (KuraView { list: ScrollListView { selected: Some(i - 1), ..o.list }, ..o })
            && eff == Effect::LoadPreview,
        i == 0 ==> n == o && eff == Effect::Nothing,
{
}

/// While browsing, Enter copies and o opens the file of the selected image, changing no
/// state; with no image selected they do nothing.
pub proof fn law_enter_copies_and_o_opens(o: KuraView, key: Key, a: Option<Action>, eff: Effect, n: KuraView)
    requires
        browsing(o),
        key.code == KeyCode::Enter || key.code == KeyCode::Char('o'),
        kura_event_step(o, TuiEvent::Key(key), a, eff, n),
    ensures
        n == o,
        a is None,
        match o.list.selected {
            Some(i) => 0 <= i < o.images.len() ==> if key.code == KeyCode::Enter {
                eff matches Effect::CopyImage(p) && p@ == o.images[i].image.file_path@
            } else {
                eff matches Effect::OpenImage(p) && p@ == o.images[i].image.file_path@
            },
            None => eff == Effect::Nothing,
        },
{
}

/// While browsing with an image selected, r opens the rename input holding the image's name
/// with the cursor at its end, and t and u open empty tag and untag inputs; nothing else
/// changes and nothing is asked.
pub proof fn law_r_t_u_open_the_inputs(o: KuraView, key: Key, i: int, a: Option<Action>, eff: Effect, n: KuraView)
    requires
        browsing(o),
        o.list.selected == Some(i),
        0 <= i < o.images.len(),
        key.code == KeyCode::Char('r') || key.code == KeyCode::Char('t') || key.code == KeyCode::Char('u'),
        kura_event_step(o, TuiEvent::Key(key), a, eff, n),
    ensures
        a is None,
        eff == Effect::Nothing,
        key.code == KeyCode::Char('r') ==> (n.rename_input matches Some(t) && t.text() == o.images[i].image.name@
            && t.cursor_pos() == t.text().len() && n == (KuraView { rename_input: n.rename_input, ..o })),
        key.code == KeyCode::Char('t') ==> (n.tag_input matches Some(t) && t.text().len() == 0
            && t.cursor_pos() == 0 && n == (KuraView { tag_input: n.tag_input, ..o })),
        key.code == KeyCode::Char('u') ==> (n.untag_input matches Some(t) && t.text().len() == 0
            && t.cursor_pos() == 0 && n == (KuraView { untag_input: n.untag_input, ..o })),
{
}

/// A tick clears the rename error and nothing else; other terminal events change nothing.
pub proof fn law_ticks_clear_the_rename_error(o: KuraView, ev: TuiEvent, a: Option<Action>, eff: Effect, n: KuraView)
    requires
        ev == TuiEvent::Tick || ev == TuiEvent::Other,
        kura_event_step(o, ev, a, eff, n),
    ensures
        a is None,
        eff == Effect::Nothing,
        ev == TuiEvent::Tick ==> n == (KuraView { rename_error: None, ..o }),
        ev == TuiEvent::Other ==> n == o,
{
}

/// Esc in an open input closes it and clears its error (the rename error for the rename
/// input, the tag error for the others); nothing is asked.
pub proof fn law_escape_closes_the_open_input(o: KuraView, ctrl: bool, a: Option<Action>, eff: Effect, n: KuraView)
    requires
        !browsing(o),
        kura_event_step(o, TuiEvent::Key(Key { code: KeyCode::Esc, ctrl }), a, eff, n),
    ensures
        a is None,
        eff == Effect::Nothing,
        o.rename_input is Some ==> n == (KuraView { rename_input: None, rename_error: None, ..o }),
        o.rename_input is None && o.tag_input is Some ==> n == (KuraView { tag_input: None, tag_error: None, ..o }),
        o.rename_input is None && o.tag_input is None ==> n == (KuraView { untag_input: None, tag_error: None, ..o }),
{
    let key = Key { code: KeyCode::Esc, ctrl };
    if o.rename_input is Some {
        let (e, ni) = choose|e: TextInputEvent, ni: TextInput| #[trigger] input_step(o.rename_input->0, key, e, ni);
    } else {
        let untag = o.tag_input is None;
        let (e, ni) = choose|e: TextInputEvent, ni: TextInput| #[trigger] input_step(tag_input_of(o, untag), key, e, ni);
    }
}

/// Enter in an open input, with an image selected, asks for its action with the input's
/// text: a rename always, a tag or untag only when the text is not empty. The input stays
/// open with its text, and no side effect is asked.
pub proof fn law_enter_in_an_input_asks_for_its_action(o: KuraView, ctrl: bool, i: int, a: Option<Action>, eff: Effect, n: KuraView)
    requires
        !browsing(o),
        o.list.selected == Some(i),
        kura_event_step(o, TuiEvent::Key(Key { code: KeyCode::Enter, ctrl }), a, eff, n),
    ensures
        eff == Effect::Nothing,
        o.rename_input matches Some(t) ==> {
            &&& a matches Some(Action::Rename { index, new_name }) && index == i && new_name@ == t.text()
            &&& n.rename_input matches Some(t2) && t2.text() == t.text() && t2.cursor_pos() == t.cursor_pos()
        },
        o.rename_input is None && o.tag_input is Some ==> {
            let t = o.tag_input->0;
            &&& t.text().len() > 0 ==> (a matches Some(Action::Tag { index, tag }) && index == i && tag@ == t.text())
            &&& t.text().len() == 0 ==> a is None
            &&& n.tag_input matches Some(t2) && t2.text() == t.text()
        },
        o.rename_input is None && o.tag_input is None ==> {
            let t = o.untag_input->0;
            &&& t.text().len() > 0 ==> (a matches Some(Action::Untag { index, tag }) && index == i && tag@ == t.text())
            &&& t.text().len() == 0 ==> a is None
            &&& n.untag_input matches Some(t2) && t2.text() == t.text()
        },
{
    let key = Key { code: KeyCode::Enter, ctrl };
    if o.rename_input is Some {
        let (e, ni) = choose|e: TextInputEvent, ni: TextInput| #[trigger] input_step(o.rename_input->0, key, e, ni);
    } else {
        let untag = o.tag_input is None;
        let (e, ni) = choose|e: TextInputEvent, ni: TextInput| #[trigger] input_step(tag_input_of(o, untag), key, e, ni);
    }
}

/// A finished action that succeeded closes its input (and clears the tag error for tags and
/// untags); one that failed shows its message (the rename error for renames, the tag error
/// otherwise) and keeps the input open. Nothing else changes.
pub proof fn law_finishing_an_action(o: KuraView, action: Action, outcome: Result<(), Seq<char>>)
    ensures
        ({
            let n = finish_spec(o, action, outcome);
            match (action, outcome) {
                (Action::Rename { .. }, Ok(_)) => n == KuraView { rename_input: None, ..o },
                (Action::Tag { .. }, Ok(_)) => n == KuraView { tag_input: None, tag_error: None, ..o },
                (Action::Untag { .. }, Ok(_)) => n == KuraView { untag_input: None, tag_error: None, ..o },
                (Action::Rename { .. }, Err(e)) => n == KuraView { rename_error: Some(e), ..o },
                (_, Err(e)) => n == KuraView { tag_error: Some(e), ..o },
            }
        }),
{
}

/// Reading the images again keeps the selected position when it still names an image, moves
/// it to the last image when the list got shorter, selects the first image when nothing was
/// selected, and selects nothing in an empty list; the list does not wrap, and the rest of
/// the state stays.
pub proof fn law_reloading_keeps_the_position(o: KuraView, images: Seq<ImageWithTags>)
    ensures
        ({
            let n = replace_spec(o, images);
            let len = images.len() as int;
            &&& n.images == images
            &&& n.list.len == len && !n.list.wrap
            &&& len == 0 ==> n.list.selected is None
            &&& len > 0 ==> match o.list.selected {
                Some(i) => n.list.selected == Some(if i < len { i } else { len - 1 }),
                None => n.list.selected == Some(0int),
            }
            &&& n.should_quit == o.should_quit
            &&& n.rename_input == o.rename_input && n.rename_error == o.rename_error
            &&& n.tag_input == o.tag_input && n.untag_input == o.untag_input && n.tag_error == o.tag_error
        }),
{
}

} // verus!
