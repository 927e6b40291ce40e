//! The texts that a display shows for the values of a snapshot.

use crate::number::{decimal_string, decimal_text, digit_char, digit_str};
use crate::text::strip_newline;
use vstd::prelude::*;
use vstd::string::{StrSliceExecFns, StringExecFns};

verus! {

/// `n` blanks.
pub open spec fn blanks(n: int) -> Seq<char> {
    Seq::new(
        if n > 0 {
            n as nat
        } else {
            0
        },
        |i: int| ' ',
    )
}

/// `text` with blanks before it, as many as it lacks to `width` characters.
pub open spec fn right_aligned(text: Seq<char>, width: nat) -> Seq<char> {
    blanks(width - text.len()) + text
}

/// `text` with blanks after it, as many as it lacks to `width` characters.
pub open spec fn left_aligned(text: Seq<char>, width: nat) -> Seq<char> {
    text + blanks(width - text.len())
}

/// What stands between the name of a field and its value.
pub open spec fn separator() -> Seq<char> {
    seq![' ', ':', ' ']
}

/// A count of thousandths written as a decimal: the whole part, and after a
/// dot the places of the fraction up to the last that is not zero. A whole
/// number is written without a dot.
pub open spec fn milli_text(n: nat) -> Seq<char> {
    let whole = decimal_text(n / 1000);
    let tenths = digit_char(n % 1000 / 100);
    let hundredths = digit_char(n % 100 / 10);
    let thousandths = digit_char(n % 10);
    if n % 1000 == 0 {
        whole
    } else if n % 100 == 0 {
        whole + seq!['.', tenths]
    } else if n % 10 == 0 {
        whole + seq!['.', tenths, hundredths]
    } else {
        whole + seq!['.', tenths, hundredths, thousandths]
    }
}

/// The name of a session: the user, `@`, the host.
pub fn get_session_name(user: &str, host: &str) -> (name: String)
    ensures
        name@ == user@ + seq!['@'] + host@,
{
    proof {
        reveal_strlit("@");
    }
    let mut name = String::from_str(user);
    name.append("@");
    assert("@"@ =~= seq!['@']);
    name.append(host);
    name
}

/// Takes one final line feed off `s`, if it ends in one.
pub fn trim_newline(s: &mut String)
    ensures
        final(s)@ == strip_newline(old(s)@),
{
    let n = s.as_str().unicode_len();
    if n > 0 && s.as_str().get_char(n - 1) == '\n' {
        let kept = String::from_str(s.as_str().substring_char(0, n - 1));
        assert(kept@ =~= old(s)@.drop_last());
        *s = kept;
    }
}

/// Writes `n` blanks at the end of `out`.
fn push_blanks(out: &mut String, n: usize)
    ensures
        final(out)@ == old(out)@ + blanks(n as int),
{
    proof {
        reveal_strlit(" ");
    }
    let mut i: usize = 0;
    assert(out@ =~= old(out)@ + blanks(0));
    while i < n
        invariant
            i <= n,
            out@ == old(out)@ + blanks(i as int),
            " "@ == seq![' '],
        decreases n - i,
    {
        let ghost before = out@;
        out.append(" ");
        assert(before + seq![' '] =~= old(out)@ + blanks(i + 1));
        i += 1;
    }
}

/// A value that a display can show as text.
pub trait Shown {
    /// The text that stands for the value.
    spec fn text(&self) -> Seq<char>;

    /// The text that stands for the value.
    fn show(&self) -> (s: String)
        ensures
            s@ == self.text(),
    ;
}

impl Shown for u8 {
    open spec fn text(&self) -> Seq<char> {
        decimal_text(*self as nat)
    }

    fn show(&self) -> (s: String) {
        decimal_string(*self as u64)
    }
}

impl Shown for u32 {
    open spec fn text(&self) -> Seq<char> {
        decimal_text(*self as nat)
    }

    fn show(&self) -> (s: String) {
        decimal_string(*self as u64)
    }
}

impl Shown for u64 {
    open spec fn text(&self) -> Seq<char> {
        decimal_text(*self as nat)
    }

    fn show(&self) -> (s: String) {
        decimal_string(*self)
    }
}

impl Shown for String {
    open spec fn text(&self) -> Seq<char> {
        self@
    }

    fn show(&self) -> (s: String) {
        String::from_str(self.as_str())
    }
}

impl<'a> Shown for &'a str {
    open spec fn text(&self) -> Seq<char> {
        self@
    }

    fn show(&self) -> (s: String) {
        String::from_str(*self)
    }
}

/// A count of thousandths, which is shown as a decimal.
#[derive(Clone, Copy, Debug, PartialEq, Eq, Structural)]
pub struct Milli(pub u64);

impl Shown for Milli {
    open spec fn text(&self) -> Seq<char> {
        milli_text(self.0 as nat)
    }

    fn show(&self) -> (s: String) {
        let n = self.0;
        let mut s = decimal_string(n / 1000);
        if n % 1000 != 0 {
            proof {
                reveal_strlit(".");
            }
            assert("."@ =~= seq!['.']);
            s.append(".");
            s.append(digit_str(n % 1000 / 100));
            if n % 100 != 0 {
                s.append(digit_str(n % 100 / 10));
                if n % 10 != 0 {
                    s.append(digit_str(n % 10));
                }
            }
        }
        assert(s@ =~= milli_text(n as nat));
        s
    }
}

/// Values that can be shown as a percentage.
pub trait Percentify: Shown {
    /// The value, then `%`.
    fn as_percentage(&self) -> (s: String)
        ensures
            s@ == self.text().push('%'),
    ;
}

impl<T: Shown> Percentify for T {
    fn as_percentage(&self) -> (s: String) {
        proof {
            reveal_strlit("%");
        }
        let mut s = self.show();
        s.append("%");
        assert(s@ =~= self.text().push('%'));
        s
    }
}

/// Values that can be shown as a temperature.
pub trait Celcify: Shown {
    /// The value, set to the right in three characters, then `C`.
    fn as_celcius(&self) -> (s: String)
        ensures
            s@ == right_aligned(self.text(), 3).push('C'),
    ;
}

impl<T: Shown> Celcify for T {
    fn as_celcius(&self) -> (s: String) {
        proof {
            reveal_strlit("C");
        }
        let shown = self.show();
        let n = shown.as_str().unicode_len();
        let mut s = String::new();
        if n < 3 {
            push_blanks(&mut s, 3 - n);
        }
        s.append(shown.as_str());
        s.append("C");
        assert(s@ =~= right_aligned(self.text(), 3).push('C'));
        s
    }
}

/// Values that can be shown as the value of a named field.
pub trait Name: Shown {
    /// The field's name, ` : `, and the value, set to the left in forty
    /// characters.
    fn as_long_field_name(&self, field: &str) -> (s: String)
        ensures
            s@ == field@ + separator() + left_aligned(self.text(), 40),
    ;

    /// The field's name, ` : `, and the value.
    fn as_field_name(&self, field: &str) -> (s: String)
        ensures
            s@ == field@ + separator() + self.text(),
    ;
}

impl<T: Shown> Name for T {
    fn as_long_field_name(&self, field: &str) -> (s: String) {
        let shown = self.show();
        let n = shown.as_str().unicode_len();
        let mut s = self.as_field_name(field);
        if n < 40 {
            push_blanks(&mut s, 40 - n);
        }
        assert(s@ =~= field@ + separator() + left_aligned(self.text(), 40));
        s
    }

    fn as_field_name(&self, field: &str) -> (s: String) {
        proof {
            reveal_strlit(" : ");
        }
        let mut s = String::from_str(field);
        s.append(" : ");
        assert(" : "@ =~= separator());
        s.append(self.show().as_str());
        s
    }
}

} // verus!
