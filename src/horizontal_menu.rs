use vstd::prelude::*;
use vstd::string::*;

use crate::text::push_char;

verus! {

/// One choice of a horizontal menu: its label and the key that picks it.
pub struct HorizontalMenuOption<'a> {
    pub label: &'a str,
    pub shortcut: char,
}

impl<'a> HorizontalMenuOption<'a> {
    pub fn new(label: &'a str, shortcut: char) -> (r: HorizontalMenuOption<'a>)
        ensures
            r.label@ == label@,
            r.shortcut == shortcut,
    {
        HorizontalMenuOption { label, shortcut }
    }
}

/// A key press, as far as the menu tells keys apart.
#[derive(Clone, Copy, Debug, PartialEq, Eq, Structural)]
pub enum MenuKey {
    Char(char),
    Ctrl(char),
    Left,
    Right,
    Up,
    Down,
    Enter,
    Esc,
    Other,
}

/// What a key press did to the menu.
#[derive(Clone, Copy, Debug, PartialEq, Eq, Structural)]
pub enum KeyEffect {
    /// Nothing changed; keep reading keys.
    Ignored,
    /// The highlight moved; redraw and keep reading keys.
    Moved,
    /// The option at this index was chosen; the menu is done.
    Confirmed(usize),
    /// The menu was left without a choice; the menu is done.
    Cancelled,
}

/// The shortcut keys of `options`, in order.
pub open spec fn shortcuts(options: Seq<HorizontalMenuOption>) -> Seq<char> {
    options.map_values(|o: HorizontalMenuOption| o.shortcut)
}

/// The first position in `keys` that holds `c`, if any.
pub open spec fn first_match(keys: Seq<char>, c: char) -> Option<int>
    decreases keys.len(),
{
    if keys.len() == 0 {
        None
    } else {
        match first_match(keys.drop_last(), c) {
            Some(k) => Some(k),
            None => if keys.last() == c {
                Some(keys.len() - 1)
            } else {
                None
            },
        }
    }
}

/// Whether `key` moves the highlight one place to the left.
pub open spec fn is_left_key(key: MenuKey) -> bool {
    key == MenuKey::Char('h') || key == MenuKey::Left || key == MenuKey::Up || key
        == MenuKey::Ctrl('b')
}

/// Whether `key` moves the highlight one place to the right.
pub open spec fn is_right_key(key: MenuKey) -> bool {
    key == MenuKey::Char('l') || key == MenuKey::Right || key == MenuKey::Down || key
        == MenuKey::Ctrl('f')
}

/// Whether `key` confirms the highlighted option.
pub open spec fn is_enter_key(key: MenuKey) -> bool {
    key == MenuKey::Enter || key == MenuKey::Char('\n')
}

/// The selection state of a menu while the user browses it.
#[derive(Clone, Copy, Debug, PartialEq, Eq, Structural)]
pub struct MenuState {
    pub selected_index: usize,
    pub max_selected_index: usize,
    pub done: bool,
    pub did_select: bool,
}

impl MenuState {
    /// The highlight is on one of the options.
    pub open spec fn wf(self) -> bool {
        self.selected_index <= self.max_selected_index
    }

    /// The highlight and the effect after `key`, for a menu whose options
    /// have the shortcut keys `keys`.
    pub open spec fn after_key(self, keys: Seq<char>, key: MenuKey) -> (usize, KeyEffect) {
        let sel = self.selected_index;
        if key == MenuKey::Ctrl('a') {
            (0, KeyEffect::Moved)
        } else if key == MenuKey::Ctrl('e') {
            (self.max_selected_index, KeyEffect::Moved)
        } else if is_left_key(key) {
            if sel >= 1 {
                ((sel - 1) as usize, KeyEffect::Moved)
            } else {
                (sel, KeyEffect::Ignored)
            }
        } else if is_right_key(key) {
            if sel < self.max_selected_index {
                ((sel + 1) as usize, KeyEffect::Moved)
            } else {
                (sel, KeyEffect::Ignored)
            }
        } else if is_enter_key(key) {
            (sel, KeyEffect::Confirmed(sel))
        } else {
            match key {
                MenuKey::Esc => (sel, KeyEffect::Cancelled),
                MenuKey::Ctrl(_) => (sel, KeyEffect::Cancelled),
                MenuKey::Char(c) => match first_match(keys, c) {
                    Some(k) => (k as usize, KeyEffect::Confirmed(k as usize)),
                    None => (sel, KeyEffect::Ignored),
                },
                _ => (sel, KeyEffect::Ignored),
            }
        }
    }

    /// The state after a key press with effect `effect` that leaves the
    /// highlight on `sel`.
    pub open spec fn with_effect(self, sel: usize, effect: KeyEffect) -> MenuState {
        match effect {
            KeyEffect::Confirmed(_) => MenuState { selected_index: sel, done: true, did_select: true, ..self },
            KeyEffect::Cancelled => MenuState { selected_index: sel, done: true, did_select: false, ..self },
            _ => MenuState { selected_index: sel, ..self },
        }
    }

    /// A fresh menu over `option_count` options, the first highlighted.
    pub fn new(option_count: usize) -> (r: MenuState)
        requires
            option_count >= 1,
        ensures
            r.selected_index == 0,
            r.max_selected_index == option_count - 1,
            !r.done,
            !r.did_select,
            r.wf(),
    {
        MenuState { selected_index: 0, max_selected_index: option_count - 1, done: false, did_select: false }
    }

    /// Applies one key press to a menu over `options`.
    pub fn handle_key(&mut self, options: &[HorizontalMenuOption], key: MenuKey) -> (r: KeyEffect)
        requires
            old(self).wf(),
            options@.len() == old(self).max_selected_index + 1,
        ensures
            r == old(self).after_key(shortcuts(options@), key).1,
            *final(self) == old(self).with_effect(old(self).after_key(shortcuts(options@), key).0, r),
            final(self).wf(),
    {
        let sel = self.selected_index;
        let (next, effect) = if key == MenuKey::Ctrl('a') {
            (0, KeyEffect::Moved)
        } else if key == MenuKey::Ctrl('e') {
            (self.max_selected_index, KeyEffect::Moved)
        } else if key == MenuKey::Char('h') || key == MenuKey::Left || key == MenuKey::Up || key
            == MenuKey::Ctrl('b') {
            if sel >= 1 {
                (sel - 1, KeyEffect::Moved)
            } else {
                (sel, KeyEffect::Ignored)
            }
        } else if key == MenuKey::Char('l') || key == MenuKey::Right || key == MenuKey::Down || key
            == MenuKey::Ctrl('f') {
            if sel < self.max_selected_index {
                (sel + 1, KeyEffect::Moved)
            } else {
                (sel, KeyEffect::Ignored)
            }
        } else if key == MenuKey::Enter || key == MenuKey::Char('\n') {
            (sel, KeyEffect::Confirmed(sel))
        } else {
            match key {
                MenuKey::Esc => (sel, KeyEffect::Cancelled),
                MenuKey::Ctrl(_) => (sel, KeyEffect::Cancelled),
                MenuKey::Char(c) => match find_shortcut(options, c) {
                    Some(k) => (k, KeyEffect::Confirmed(k)),
                    None => (sel, KeyEffect::Ignored),
                },
                _ => (sel, KeyEffect::Ignored),
            }
        };
        self.selected_index = next;
        match effect {
            KeyEffect::Confirmed(_) => {
                self.done = true;
                self.did_select = true;
            },
            KeyEffect::Cancelled => {
                self.done = true;
                self.did_select = false;
            },
            _ => {},
        }
        effect
    }

    /// The outcome of a finished menu: the chosen index, or `None` when it
    /// was cancelled.
    pub fn result(&self) -> (r: Option<usize>)
        ensures
            r == (if self.did_select {
                Some(self.selected_index)
            } else {
                None
            }),
    {
        if self.did_select {
            Some(self.selected_index)
        } else {
            None
        }
    }
}

/// The first option whose shortcut is `c`.
pub fn find_shortcut(options: &[HorizontalMenuOption], c: char) -> (r: Option<usize>)
    ensures
        r == (match first_match(shortcuts(options@), c) {
            Some(k) => Some(k as usize),
            None => None,
        }),
        first_match(shortcuts(options@), c) matches Some(k) ==> 0 <= k < options@.len(),
{
    let mut i: usize = 0;
    while i < options.len()
        invariant
            i <= options@.len(),
            first_match(shortcuts(options@).subrange(0, i as int), c) == None::<int>,
        decreases options@.len() - i,
    {
        assert(shortcuts(options@).subrange(0, i + 1).drop_last() =~= shortcuts(
            options@,
        ).subrange(0, i as int));
        if options[i].shortcut == c {
            proof {
                lemma_first_match_extends(shortcuts(options@), c, i as int + 1);
            }
            return Some(i);
        }
        i = i + 1;
    }
    assert(shortcuts(options@).subrange(0, i as int) =~= shortcuts(options@));
    None
}

/// A match within a prefix is the first match of the whole sequence.
proof fn lemma_first_match_extends(keys: Seq<char>, c: char, n: int)
    requires
        0 <= n <= keys.len(),
        first_match(keys.subrange(0, n), c) is Some,
    ensures
        first_match(keys, c) == first_match(keys.subrange(0, n), c),
        first_match(keys, c).unwrap() < n,
    decreases keys.len() - n,
{
    lemma_first_match_in_range(keys.subrange(0, n), c);
    if n < keys.len() {
        assert(keys.subrange(0, n + 1).drop_last() =~= keys.subrange(0, n));
        lemma_first_match_extends(keys, c, n + 1);
    } else {
        assert(keys.subrange(0, n) =~= keys);
    }
}

proof fn lemma_first_match_in_range(keys: Seq<char>, c: char)
    ensures
        first_match(keys, c) matches Some(k) ==> 0 <= k < keys.len() && keys[k] == c,
    decreases keys.len(),
{
    if keys.len() > 0 {
        lemma_first_match_in_range(keys.drop_last(), c);
    }
}

/// Moving left from the first option and right from the last leave the
/// highlight where it is and the menu open; a shortcut key highlights the
/// first option it belongs to and confirms it; Escape always closes the menu
/// without a choice.
pub proof fn lemma_menu_keys(state: MenuState, keys: Seq<char>, c: char)
    requires
        state.wf(),
        keys.len() == state.max_selected_index + 1,
    ensures
        state.selected_index == 0 ==> state.after_key(keys, MenuKey::Left) == (
            state.selected_index,
            KeyEffect::Ignored,
        ),
        state.selected_index == state.max_selected_index ==> state.after_key(keys, MenuKey::Right)
            == (state.selected_index, KeyEffect::Ignored),
        c != 'h' && c != 'l' && c != '\n' && first_match(keys, c) is Some ==> {
            let k = first_match(keys, c).unwrap();
            &&& 0 <= k < keys.len()
            &&& keys[k] == c
            &&& forall|j: int| 0 <= j < k ==> keys[j] != c
            &&& state.after_key(keys, MenuKey::Char(c)) == (k as usize, KeyEffect::Confirmed(
                k as usize,
            ))
        },
        state.with_effect(
            state.after_key(keys, MenuKey::Esc).0,
            state.after_key(keys, MenuKey::Esc).1,
        ).done,
        state.with_effect(
            state.after_key(keys, MenuKey::Esc).0,
            state.after_key(keys, MenuKey::Esc).1,
        ).result_spec() == None::<usize>,
{
    lemma_first_match_in_range(keys, c);
    lemma_first_match_is_first(keys, c);
}

proof fn lemma_first_match_is_first(keys: Seq<char>, c: char)
    ensures
        first_match(keys, c) matches Some(k) ==> forall|j: int| 0 <= j < k ==> keys[j] != c,
        first_match(keys, c) is None ==> forall|j: int| 0 <= j < keys.len() ==> keys[j] != c,
    decreases keys.len(),
{
    if keys.len() > 0 {
        let prefix = keys.drop_last();
        lemma_first_match_is_first(prefix, c);
        lemma_first_match_in_range(prefix, c);
        assert forall|j: int| 0 <= j < prefix.len() implies prefix[j] == keys[j] by {}
    }
}

impl MenuState {
    /// What `result` returns.
    pub open spec fn result_spec(self) -> Option<usize> {
        if self.did_select {
            Some(self.selected_index)
        } else {
            None
        }
    }
}

/// A piece of a drawn menu line: its text and whether it is shown inverted.
pub struct MenuSegment {
    pub text: String,
    pub highlighted: bool,
}

/// How an option is shown: its label and, in parentheses, its shortcut.
pub open spec fn option_text(o: HorizontalMenuOption) -> Seq<char> {
    o.label@ + " ("@ + seq![o.shortcut] + ")"@
}

/// The menu line over `options` with `selected` highlighted: the option
/// texts in order, only the selected one inverted, `separator` between each
/// two.
pub fn draw_horizontal_menu(options: &[HorizontalMenuOption], selected: usize, separator: &str) -> (r:
    Vec<MenuSegment>)
    requires
        options@.len() >= 1,
    ensures
        r@.len() == 2 * options@.len() - 1,
        forall|k: int|
            0 <= k < options@.len() ==> {
                &&& (#[trigger] r@[2 * k]).text@ == option_text(options@[k])
                &&& r@[2 * k].highlighted == (k == selected)
            },
        forall|k: int|
            0 <= k < options@.len() - 1 ==> {
                &&& (#[trigger] r@[2 * k + 1]).text@ == separator@
                &&& !r@[2 * k + 1].highlighted
            },
{
    let mut out: Vec<MenuSegment> = Vec::new();
    let mut i: usize = 0;
    while i < options.len()
        invariant
            i <= options@.len(),
            out@.len() == if i == 0 {
                0
            } else {
                2 * i - 1
            },
            forall|k: int|
                0 <= k < i ==> {
                    &&& (#[trigger] out@[2 * k]).text@ == option_text(options@[k])
                    &&& out@[2 * k].highlighted == (k == selected)
                },
            forall|k: int|
                0 <= k < i - 1 ==> {
                    &&& (#[trigger] out@[2 * k + 1]).text@ == separator@
                    &&& !out@[2 * k + 1].highlighted
                },
        decreases options@.len() - i,
    {
        if i > 0 {
            out.push(MenuSegment { text: String::from_str(separator), highlighted: false });
        }
        let mut text = String::from_str(options[i].label);
        text.append(" (");
        push_char(&mut text, options[i].shortcut);
        text.append(")");
        assert(text@ =~= option_text(options@[i as int]));
        out.push(MenuSegment { text, highlighted: i == selected });
        i = i + 1;
    }
    out
}

} // verus!
