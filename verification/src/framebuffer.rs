use vstd::prelude::*;

verus! {

/// The bounding box of framebuffer words written since it was last cleared,
/// in word-column (`x`) and row (`y`) coordinates.
///
/// The cleared state is the degenerate rectangle
/// `(width_words, height, 0, 0)`, so that later min/max updates converge to
/// the correct bounding box without a special empty case.
#[derive(Debug, Clone, Copy)]
pub struct Damage {
    pub x1: i32,
    pub y1: i32,
    pub x2: i32,
    pub y2: i32,
}

impl Damage {
    /// Whether the rectangle covers word column `col` of row `row`.
    pub open spec fn covers(self, col: int, row: int) -> bool {
        self.x1 <= col <= self.x2 && self.y1 <= row <= self.y2
    }

    /// Whether the rectangle is the degenerate cleared state for a
    /// `width_words` by `height` framebuffer.
    pub open spec fn is_cleared(self, width_words: int, height: int) -> bool {
        self.x1 == width_words && self.y1 == height && self.x2 == 0 && self.y2 == 0
    }

    /// The rectangle that covers the whole framebuffer.
    pub fn full(fb_width_words: i32, fb_height: i32) -> (r: Damage)
        requires
            fb_width_words > i32::MIN,
            fb_height > i32::MIN,
        ensures
            r.x1 == 0 && r.y1 == 0 && r.x2 == fb_width_words - 1 && r.y2 == fb_height - 1,
    {
        Damage { x1: 0, y1: 0, x2: fb_width_words - 1, y2: fb_height - 1 }
    }

    /// The degenerate rectangle that covers nothing.
    pub fn cleared(fb_width_words: i32, fb_height: i32) -> (r: Damage)
        ensures
            r.is_cleared(fb_width_words as int, fb_height as int),
            fb_width_words > 0 ==> (forall|c: int, r_: int| !r.covers(c, r_)),
    {
        Damage { x1: fb_width_words, y1: fb_height, x2: 0, y2: 0 }
    }

    /// The rectangle after absorbing the framebuffer word with index
    /// `w_index`, at row `w_index / fb_width_words` and column
    /// `w_index % fb_width_words`; rows at or past `fb_height` change
    /// nothing.
    pub open spec fn after_update(self, fb_width_words: int, fb_height: int, w_index: int) -> Damage {
        let row = w_index / fb_width_words;
        let col = w_index % fb_width_words;
        if row < fb_height {
            Damage {
                x1: if col < self.x1 {
                    col as i32
                } else {
                    self.x1
                },
                y1: if row < self.y1 {
                    row as i32
                } else {
                    self.y1
                },
                x2: if col > self.x2 {
                    col as i32
                } else {
                    self.x2
                },
                y2: if row > self.y2 {
                    row as i32
                } else {
                    self.y2
                },
            }
        } else {
            self
        }
    }

    /// Expands the rectangle to cover the framebuffer word with index
    /// `w_index`, at row `w_index / fb_width_words` and column
    /// `w_index % fb_width_words`; rows at or past `fb_height` are ignored.
    pub fn update_word_index(&mut self, fb_width_words: i32, fb_height: i32, w_index: i32)
        requires
            fb_width_words > 0,
            w_index >= 0,
        ensures
            *final(self) == old(self).after_update(
                fb_width_words as int,
                fb_height as int,
                w_index as int,
            ),
            ({
                let row = w_index as int / fb_width_words as int;
                let col = w_index as int % fb_width_words as int;
                &&& row < fb_height ==> final(self).covers(col, row)
                &&& forall|c: int, r: int| old(self).covers(c, r) ==> final(self).covers(c, r)
            }),
    {
        let row = w_index / fb_width_words;
        let col = w_index % fb_width_words;
        if row < fb_height {
            if col < self.x1 {
                self.x1 = col;
            }
            if col > self.x2 {
                self.x2 = col;
            }
            if row < self.y1 {
                self.y1 = row;
            }
            if row > self.y2 {
                self.y2 = row;
            }
        }
    }
}

} // verus!
