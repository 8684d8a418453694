//! An abstract screen: the fields a host writes, independent of how they are
//! drawn (line mode or a 3270 data stream).
use vstd::prelude::*;
use crate::text;

verus! {

pub struct Field {
    pub row: u16,
    pub col: u16,
    pub protected: bool,
    pub hidden: bool,
    pub text: String,
}

pub struct Screen {
    pub fields: Vec<Field>,
    pub cursor: (u16, u16),
}

/// `f` sits at `row`, `col`, with the given attributes and text.
pub open spec fn field_is(
    f: Field,
    row: u16,
    col: u16,
    protected: bool,
    hidden: bool,
    txt: Seq<char>,
) -> bool {
    &&& f.row == row
    &&& f.col == col
    &&& f.protected == protected
    &&& f.hidden == hidden
    &&& f.text@ == txt
}

impl Field {
    pub fn new(row: u16, col: u16, protected: bool, hidden: bool, text: &str) -> (f: Field)
        ensures
            field_is(f, row, col, protected, hidden, text@),
    {
        let cs = text::chars_of(text);
        Field { row, col, protected, hidden, text: text::string_of(&cs) }
    }
}

impl Screen {
    /// A minimal logon panel: labels + userid + non-display password.
    pub fn logon() -> (s: Self)
        ensures
            s.fields@.len() == 4,
            field_is(s.fields@[0], 2, 0, true, false, "USERID   ===>"@),
            field_is(s.fields@[1], 2, 14, false, false, ""@),
            field_is(s.fields@[2], 3, 0, true, false, "PASSWORD ===>"@),
            field_is(s.fields@[3], 3, 14, false, true, ""@),
            s.cursor == (2u16, 14u16),
    {
        let mut fields: Vec<Field> = Vec::new();
        fields.push(Field::new(2, 0, true, false, "USERID   ===>"));
        fields.push(Field::new(2, 14, false, false, ""));
        fields.push(Field::new(3, 0, true, false, "PASSWORD ===>"));
        fields.push(Field::new(3, 14, false, true, ""));
        Screen { fields, cursor: (2, 14) }
    }

    /// Whether the text of some field contains `pat`.
    pub fn contains_text(&self, pat: &str) -> (r: bool)
        ensures
            r == exists|i: int|
                0 <= i < self.fields@.len() && text::contains(
                    #[trigger] self.fields@[i].text@,
                    pat@,
                ),
    {
        let p = text::chars_of(pat);
        let mut i: usize = 0;
        while i < self.fields.len()
            invariant
                i <= self.fields@.len(),
                p@ == pat@,
                forall|j: int| 0 <= j < i ==> !text::contains(#[trigger] self.fields@[j].text@, pat@),
            decreases self.fields.len() - i,
        {
            let t = text::chars_of(self.fields[i].text.as_str());
            if text::contains_vec(&t, &p) {
                return true;
            }
            i += 1;
        }
        false
    }
}

} // verus!
