use vstd::prelude::*;

use crate::text::{chars_of, string_of};

verus! {

/// Columns between two tab stops.
pub const TAB_STOP: usize = 8;

/// `n` blanks.
pub open spec fn spaces(n: nat) -> Seq<char> {
    Seq::new(n, |_i: int| ' ')
}

/// Blanks that a tab emits when the rendered text so far is `col` wide: at least one,
/// and up to the next multiple of the tab stop.
pub open spec fn tab_pad(col: nat) -> nat {
    (TAB_STOP - col % (TAB_STOP as nat)) as nat
}

/// Display form of a line: each tab becomes blanks up to the next tab stop, every other
/// character stands as it is.
pub open spec fn render_of(s: Seq<char>) -> Seq<char>
    decreases s.len(),
{
    if s.len() == 0 {
        Seq::empty()
    } else {
        let prev = render_of(s.drop_last());
        if s.last() == '\t' {
            prev + spaces(tab_pad(prev.len()))
        } else {
            prev.push(s.last())
        }
    }
}

/// Rendered column of raw column `cx`: the display width of the first `cx` characters.
pub open spec fn rx_of(s: Seq<char>, cx: nat) -> nat {
    if cx <= s.len() {
        render_of(s.take(cx as int)).len()
    } else {
        render_of(s).len()
    }
}

/// Rendering a line one character longer.
pub proof fn lemma_render_push(s: Seq<char>, c: char)
    ensures
        render_of(s.push(c)) == (if c == '\t' {
            render_of(s) + spaces(tab_pad(render_of(s).len()))
        } else {
            render_of(s).push(c)
        }),
{
    assert(s.push(c).drop_last() =~= s);
}

/// The display form is at least as long as the line and at most a tab stop wider for
/// each of its characters.
pub proof fn lemma_render_len(s: Seq<char>)
    ensures
        s.len() <= render_of(s).len() <= TAB_STOP * s.len(),
    decreases s.len(),
{
    if s.len() > 0 {
        lemma_render_len(s.drop_last());
    }
}

/// One line of the document, with its display form kept up to date.
#[derive(Debug)]
pub struct Row {
    chars: Vec<char>,
    render: Vec<char>,
}

impl View for Row {
    type V = Seq<char>;

    closed spec fn view(&self) -> Seq<char> {
        self.chars@
    }
}

impl Row {
    #[verifier::type_invariant]
    closed spec fn inv(&self) -> bool {
        self.render@ == render_of(self.chars@)
    }

    /// A row holding `chars`.
    pub fn new(chars: String) -> (r: Row)
        ensures
            r@ == chars@,
    {
        Row::from_chars(chars_of(chars.as_str()))
    }

    /// A row holding the characters `chars`.
    pub fn from_chars(chars: Vec<char>) -> (r: Row)
        ensures
            r@ == chars@,
    {
        let render = Row::render_row(&chars);
        Row { chars, render }
    }

    /// Length of the display form.
    pub fn render_len(&self) -> (r: usize)
        ensures
            r == render_of(self@).len(),
    {
        proof { use_type_invariant(self); }
        self.render.len()
    }

    /// Number of raw characters.
    pub fn len(&self) -> (r: usize)
        ensures
            r == self@.len(),
    {
        self.chars.len()
    }

    /// The raw characters.
    pub fn chars(&self) -> (r: &Vec<char>)
        ensures
            r@ == self@,
    {
        &self.chars
    }

    /// The raw text as a string.
    pub fn text(&self) -> (r: String)
        ensures
            r@ == self@,
    {
        string_of(&self.chars)
    }

    /// The display form as a string.
    pub fn render_text(&self) -> (r: String)
        ensures
            r@ == render_of(self@),
    {
        proof { use_type_invariant(self); }
        string_of(&self.render)
    }

    /// Rendered column of the raw column `cx`, in the terminal's coordinate type (so
    /// taken modulo 2^16, as a cast to `u16` does).
    pub fn cx_to_rx(&self, cx: u16) -> (r: u16)
        ensures
            r == rx_of(self@, cx as nat) as u16,
    {
        let n: usize = if (cx as usize) < self.chars.len() { cx as usize } else { self.chars.len() };
        let mut rx: usize = 0;
        let mut i: usize = 0;
        while i < n
            invariant
                n <= self.chars@.len(),
                n <= cx,
                i <= n,
                rx == render_of(self.chars@.take(i as int)).len(),
            decreases n - i,
        {
            let c = self.chars[i];
            proof {
                let s = self.chars@.take(i as int);
                assert(self.chars@.take(i + 1) =~= s.push(c));
                lemma_render_push(s, c);
                lemma_render_len(s);
            }
            if c == '\t' {
                rx += (TAB_STOP - 1) - (rx % TAB_STOP);
            }
            rx += 1;
            i += 1;
        }
        proof {
            if n == self.chars@.len() {
                assert(self.chars@.take(n as int) =~= self.chars@);
            }
        }
        rx as u16
    }

    /// Inserts `c` before raw column `at`, or appends it where `at` is past the end.
    pub fn insert_char(&mut self, at: usize, c: char)
        ensures
            final(self)@ == (if at < old(self)@.len() {
                old(self)@.insert(at as int, c)
            } else {
                old(self)@.push(c)
            }),
    {
        let mut chars = self.take_chars();
        if at >= chars.len() {
            chars.push(c);
        } else {
            chars.insert(at, c);
        }
        *self = Row::from_chars(chars);
    }

    /// Removes the character at raw column `at`.
    pub fn remove_char(&mut self, at: usize)
        requires
            at < old(self)@.len(),
        ensures
            final(self)@ == old(self)@.remove(at as int),
    {
        let mut chars = self.take_chars();
        chars.remove(at);
        *self = Row::from_chars(chars);
    }

    /// Moves the raw characters out, leaving an empty row behind.
    fn take_chars(&mut self) -> (r: Vec<char>)
        ensures
            r@ == old(self)@,
            final(self)@.len() == 0,
    {
        let mut empty = Row { chars: Vec::new(), render: Vec::new() };
        std::mem::swap(self, &mut empty);
        let Row { chars, render: _ } = empty;
        chars
    }

    /// Expands the tabs of `chars`.
    pub fn render_row(chars: &Vec<char>) -> (r: Vec<char>)
        ensures
            r@ == render_of(chars@),
    {
        let mut render: Vec<char> = Vec::new();
        let mut i: usize = 0;
        while i < chars.len()
            invariant
                i <= chars@.len(),
                render@ == render_of(chars@.take(i as int)),
            decreases chars@.len() - i,
        {
            let c = chars[i];
            proof {
                assert(chars@.take(i + 1) =~= chars@.take(i as int).push(c));
                lemma_render_push(chars@.take(i as int), c);
            }
            if c == '\t' {
                let ghost prev = render@;
                render.push(' ');
                assert(render@ =~= prev + spaces(1));
                while render.len() % TAB_STOP != 0
                    invariant
                        prev.len() < render@.len() <= prev.len() + tab_pad(prev.len()),
                        render@ == prev + spaces((render@.len() - prev.len()) as nat),
                    decreases prev.len() + tab_pad(prev.len()) - render@.len(),
                {
                    render.push(' ');
                    assert(render@ =~= prev + spaces((render@.len() - prev.len()) as nat));
                }
            } else {
                render.push(c);
            }
            i += 1;
        }
        assert(chars@.take(chars@.len() as int) =~= chars@);
        render
    }
}

} // verus!
