//! The single-line text input of the search prompt: a string and a cursor
//! that counts chars, not bytes.
use vstd::prelude::*;
use vstd::std_specs::iter::IteratorSpec;
use vstd::utf8::*;

use crate::text::{
    char_count, char_utf8_width, lemma_encode_utf8_concat, lemma_encode_utf8_single,
    lemma_prefix_len_is_char_boundary, lemma_utf8_len_take_le, lemma_utf8_len_take_step,
    string_insert, string_push, utf8_len,
};

verus! {

broadcast use vstd::utf8::group_utf8_lib;

/// `pos`, limited to the range `0..=len`.
pub open spec fn clamp_to(pos: int, len: int) -> int {
    if pos < 0 {
        0
    } else if pos <= len {
        pos
    } else {
        len
    }
}

/// Where a cursor at `ci` lands after one step left in `text`.
pub open spec fn after_move_left(text: Seq<char>, ci: int) -> int {
    clamp_to(ci - 1, text.len() as int)
}

/// Where a cursor at `ci` lands after one step right in `text`.
pub open spec fn after_move_right(text: Seq<char>, ci: int) -> int {
    clamp_to(ci + 1, text.len() as int)
}

/// Text and cursor after typing `c` with the cursor at `ci`: the char goes in
/// at the cursor (at the end when the cursor lies past it) and the cursor
/// steps over it.
pub open spec fn after_enter(text: Seq<char>, ci: int, c: char) -> (Seq<char>, int) {
    let new_text = text.insert(clamp_to(ci, text.len() as int), c);
    (new_text, after_move_right(new_text, ci))
}

/// Text and cursor after a backspace with the cursor at `ci`: the chars
/// before position `ci - 1` and from position `ci` on are kept, and the cursor
/// steps left. At the start nothing changes.
pub open spec fn after_delete(text: Seq<char>, ci: int) -> (Seq<char>, int) {
    if ci == 0 {
        (text, ci)
    } else {
        let len = text.len() as int;
        let new_text = text.take(clamp_to(ci - 1, len)) + text.skip(clamp_to(ci, len));
        (new_text, after_move_left(new_text, ci))
    }
}

/// Typing a char and then deleting it gives back the text and the cursor,
/// whenever the cursor lies within the text.
pub proof fn law_delete_undoes_enter(text: Seq<char>, ci: int, c: char)
    requires
        0 <= ci <= text.len(),
    ensures
        after_delete(after_enter(text, ci, c).0, after_enter(text, ci, c).1) == (text, ci),
{
    let (t1, c1) = after_enter(text, ci, c);
    assert(c1 == ci + 1);
    assert(t1.take(ci) + t1.skip(ci + 1) =~= text);
}

/// After any edit or cursor move the cursor lies within the text.
pub proof fn law_cursor_stays_in_text(text: Seq<char>, ci: int, c: char)
    requires
        0 <= ci,
    ensures
        0 <= after_move_left(text, ci) <= text.len(),
        0 <= after_move_right(text, ci) <= text.len(),
        0 <= after_enter(text, ci, c).1 <= after_enter(text, ci, c).0.len(),
        0 <= after_delete(text, ci).1 <= after_delete(text, ci).0.len(),
{
}

/// Within the text a step left moves the cursor back by one char and a
/// step right forward by one; at the start a step left stays, at the end a
/// step right stays, and a cursor past the end lands on the end.
pub proof fn law_cursor_steps_by_one(text: Seq<char>, ci: int)
    requires
        0 <= ci,
    ensures
        0 < ci <= text.len() ==> after_move_left(text, ci) == ci - 1,
        ci == 0 ==> after_move_left(text, ci) == 0,
        ci < text.len() ==> after_move_right(text, ci) == ci + 1,
        ci >= text.len() ==> after_move_right(text, ci) == text.len(),
        ci > text.len() ==> after_move_left(text, ci) == text.len(),
{
}

/// A step right followed by a step left returns the cursor to where it was,
/// when there was room to step right; and a step left followed by a step
/// right does the same when there was room to step left.
pub proof fn law_cursor_moves_are_inverse(text: Seq<char>, ci: int)
    ensures
        0 <= ci < text.len() ==> after_move_left(text, after_move_right(text, ci)) == ci,
        0 < ci <= text.len() ==> after_move_right(text, after_move_left(text, ci)) == ci,
{
}

/// With the cursor inside the text, a backspace removes exactly the char
/// left of the cursor and the text becomes one char shorter.
pub proof fn law_delete_removes_char_before_cursor(text: Seq<char>, ci: int)
    requires
        0 < ci <= text.len(),
    ensures
        after_delete(text, ci).0 == text.remove(ci - 1),
        after_delete(text, ci).0.len() == text.len() - 1,
        after_delete(text, ci).1 == ci - 1,
{
    assert(text.take(ci - 1) + text.skip(ci) =~= text.remove(ci - 1));
}

/// Typing puts the char at the cursor and makes the text one char longer.
pub proof fn law_enter_inserts_at_cursor(text: Seq<char>, ci: int, c: char)
    requires
        0 <= ci <= text.len(),
    ensures
        after_enter(text, ci, c).0.len() == text.len() + 1,
        after_enter(text, ci, c).0[ci] == c,
        after_enter(text, ci, c).0.take(ci) == text.take(ci),
        after_enter(text, ci, c).0.skip(ci + 1) == text.skip(ci),
        after_enter(text, ci, c).1 == ci + 1,
{
    let t1 = after_enter(text, ci, c).0;
    assert(t1.take(ci) =~= text.take(ci));
    assert(t1.skip(ci + 1) =~= text.skip(ci));
}

/// A text field with a cursor. `character_index` counts chars from the start
/// of `user_input`; the operations below keep it within `0..=` the char count.
pub struct Input {
    pub user_input: String,
    pub character_index: usize,
}

impl Input {
    /// The cursor, as the char position it stands on when it is past the end.
    pub open spec fn cursor(&self) -> int {
        clamp_to(self.character_index as int, self.user_input@.len() as int)
    }

    /// The cursor lies within the text.
    pub open spec fn cursor_in_bounds(&self) -> bool {
        self.character_index <= self.user_input@.len()
    }

    /// An empty input with the cursor at the start.
    pub fn new() -> (input: Input)
        ensures
            input.user_input@ == Seq::<char>::empty(),
            input.character_index == 0,
    {
        Input { user_input: String::new(), character_index: 0 }
    }

    /// Moves the cursor one char to the left, stopping at the start and at
    /// the end of the text.
    pub fn move_cursor_left(&mut self)
        ensures
            final(self).user_input@ == old(self).user_input@,
            final(self).character_index as int == after_move_left(
                old(self).user_input@,
                old(self).character_index as int,
            ),
    {
        let cursor_moved_left = self.character_index.saturating_sub(1);
        self.character_index = self.clamp_cursor(cursor_moved_left);
    }

    /// Moves the cursor one char to the right, stopping at the end of the
    /// text.
    pub fn move_cursor_right(&mut self)
        ensures
            final(self).user_input@ == old(self).user_input@,
            final(self).character_index as int == after_move_right(
                old(self).user_input@,
                old(self).character_index as int,
            ),
    {
        let cursor_moved_right = self.character_index.saturating_add(1);
        self.character_index = self.clamp_cursor(cursor_moved_right);
    }

    /// Inserts `new_char` at the cursor (at the end if the cursor lies past
    /// it) and moves the cursor right past it.
    pub fn enter_char(&mut self, new_char: char)
        ensures
            (final(self).user_input@, final(self).character_index as int) == after_enter(
                old(self).user_input@,
                old(self).character_index as int,
                new_char,
            ),
    {
        let index = self.byte_index();
        let ghost k = self.cursor();
        let ghost before = self.user_input@;
        proof {
            lemma_prefix_len_is_char_boundary(before, k);
        }
        string_insert(&mut self.user_input, index, new_char);
        proof {
            let e = encode_utf8(before);
            lemma_utf8_len_take_le(before, k);
            lemma_encode_utf8_concat(before.take(k), before.skip(k));
            assert(before =~= before.take(k) + before.skip(k));
            assert(e.take(index as int) =~= encode_utf8(before.take(k)));
            assert(e.skip(index as int) =~= encode_utf8(before.skip(k)));
            let inserted = before.insert(k, new_char);
            assert(inserted =~= before.take(k) + seq![new_char] + before.skip(k));
            lemma_encode_utf8_concat(before.take(k), seq![new_char]);
            lemma_encode_utf8_concat(before.take(k) + seq![new_char], before.skip(k));
            lemma_encode_utf8_single(new_char);
            assert(encode_utf8(self.user_input@) =~= encode_utf8(inserted));
            assert(decode_utf8(encode_utf8(self.user_input@)) == self.user_input@);
            assert(decode_utf8(encode_utf8(inserted)) == inserted);
        }
        self.move_cursor_right();
    }

    /// The byte offset in `user_input` at which the char under the cursor
    /// starts, or the length of the text in bytes when the cursor lies at or
    /// past its end.
    pub fn byte_index(&self) -> (index: usize)
        ensures
            index == utf8_len(self.user_input@.take(self.cursor())),
            index <= utf8_len(self.user_input@),
            is_char_boundary(encode_utf8(self.user_input@), index as int),
    {
        let s = self.user_input.as_str();
        let len = char_count(s);
        let target = self.character_index;
        let mut chars = s.chars();
        let mut k: usize = 0;
        let mut bytes: usize = 0;
        loop
            invariant
                s@ == self.user_input@,
                len == s@.len(),
                utf8_len(s@) <= usize::MAX,
                k <= len,
                k <= target,
                target == self.character_index,
                chars.remaining() == s@.skip(k as int),
                bytes == utf8_len(s@.take(k as int)),
            ensures
                k == clamp_to(target as int, len as int),
                bytes == utf8_len(s@.take(k as int)),
            decreases len - k,
        {
            if k == target {
                break;
            }
            match chars.next() {
                Some(c) => {
                    proof {
                        assert(c == s@[k as int]);
                        lemma_utf8_len_take_step(s@, k as int);
                        lemma_utf8_len_take_le(s@, k + 1);
                    }
                    bytes = bytes + char_utf8_width(c);
                    k = k + 1;
                },
                None => {
                    break;
                },
            }
        }
        proof {
            lemma_utf8_len_take_le(s@, k as int);
            lemma_prefix_len_is_char_boundary(s@, k as int);
        }
        bytes
    }

    /// Removes the char just left of the cursor, if there is one, and moves
    /// the cursor left. With the cursor at the start nothing changes.
    pub fn delete_char(&mut self)
        ensures
            (final(self).user_input@, final(self).character_index as int) == after_delete(
                old(self).user_input@,
                old(self).character_index as int,
            ),
    {
        let is_not_leftmost = self.character_index != 0;
        if is_not_leftmost {
            let current_index = self.character_index;
            let from_left_to_current_index = current_index - 1;
            let s = self.user_input.as_str();
            let len = char_count(s);
            let keep_until = if from_left_to_current_index < len {
                from_left_to_current_index
            } else {
                len
            };
            let resume_at = if current_index < len {
                current_index
            } else {
                len
            };
            let mut kept = String::new();
            let mut chars = s.chars();
            let mut k: usize = 0;
            // The chars before the one to delete.
            while k < keep_until
                invariant
                    len == s@.len(),
                    keep_until <= resume_at <= len,
                    k <= keep_until,
                    chars.remaining() == s@.skip(k as int),
                    kept@ == s@.take(k as int),
                decreases keep_until - k,
            {
                let c = chars.next().unwrap();
                string_push(&mut kept, c);
                assert(s@.take(k + 1) =~= s@.take(k as int).push(s@[k as int]));
                k = k + 1;
            }
            // The char to delete, if any.
            while k < resume_at
                invariant
                    len == s@.len(),
                    keep_until <= k <= resume_at <= len,
                    chars.remaining() == s@.skip(k as int),
                    kept@ == s@.take(keep_until as int),
                decreases resume_at - k,
            {
                let _ = chars.next();
                k = k + 1;
            }
            // The chars after it.
            loop
                invariant
                    len == s@.len(),
                    keep_until <= resume_at <= k <= len,
                    chars.remaining() == s@.skip(k as int),
                    kept@ == s@.take(keep_until as int) + s@.subrange(resume_at as int, k as int),
                ensures
                    kept@ == s@.take(keep_until as int) + s@.skip(resume_at as int),
                decreases len - k,
            {
                match chars.next() {
                    Some(c) => {
                        assert(s@.subrange(resume_at as int, k + 1) =~= s@.subrange(
                            resume_at as int,
                            k as int,
                        ).push(c));
                        string_push(&mut kept, c);
                        k = k + 1;
                    },
                    None => {
                        assert(s@.subrange(resume_at as int, k as int) =~= s@.skip(
                            resume_at as int,
                        ));
                        break;
                    },
                }
            }
            self.user_input = kept;
            self.move_cursor_left();
        }
    }

    /// `new_cursor_pos`, limited to the range from the start to the end of
    /// the text.
    pub fn clamp_cursor(&self, new_cursor_pos: usize) -> (pos: usize)
        ensures
            pos as int == clamp_to(new_cursor_pos as int, self.user_input@.len() as int),
            self.user_input@.len() <= usize::MAX,
    {
        let count = char_count(self.user_input.as_str());
        if new_cursor_pos < count {
            new_cursor_pos
        } else {
            count
        }
    }

    /// Puts the cursor back at the start of the text.
    pub fn reset_cursor(&mut self)
        ensures
            final(self).user_input@ == old(self).user_input@,
            final(self).character_index == 0,
    {
        self.character_index = 0;
    }
}

impl Default for Input {
    fn default() -> (input: Input)
        ensures
            input.user_input@ == Seq::<char>::empty(),
            input.character_index == 0,
    {
        Input::new()
    }
}

} // verus!
