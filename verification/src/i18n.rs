//! The languages of the user interface and the filling of its text templates.

use vstd::prelude::*;

verus! {

/// A language of the user interface.
#[derive(Clone, Copy, Debug, PartialEq, Eq, Structural)]
pub enum Language {
    English,
    SimplifiedChinese,
}

/// The name of `language`, written in that language.
pub fn language_name(language: Language) -> (r: &'static str)
    ensures
        r@ == match language {
            Language::English => "English"@,
            Language::SimplifiedChinese => "简体中文"@,
        },
{
    match language {
        Language::SimplifiedChinese => "简体中文",
        Language::English => "English",
    }
}

/// The placeholder that a text template holds for a name.
pub open spec fn placeholder() -> Seq<char> {
    seq!['{', 'n', 'a', 'm', 'e', '}']
}

/// `template` with each placeholder, from left to right, replaced by `name`.
pub open spec fn filled(template: Seq<char>, name: Seq<char>) -> Seq<char>
    decreases template.len(),
{
    if template.len() == 0 {
        Seq::empty()
    } else if template.len() >= 6 && template.subrange(0, 6) == placeholder() {
        name + filled(template.subrange(6, template.len() as int), name)
    } else {
        seq![template[0]] + filled(template.subrange(1, template.len() as int), name)
    }
}

/// Whether the placeholder starts at `i` in `text`.
fn placeholder_at(text: &str, i: usize) -> (b: bool)
    requires
        i <= text@.len(),
    ensures
        b == (i + 6 <= text@.len() && text@.subrange(i as int, i + 6) == placeholder()),
{
    let n = text.unicode_len();
    if n - i < 6 {
        return false;
    }
    let b = text.get_char(i) == '{' && text.get_char(i + 1) == 'n' && text.get_char(i + 2) == 'a'
        && text.get_char(i + 3) == 'm' && text.get_char(i + 4) == 'e' && text.get_char(i + 5)
        == '}';
    proof {
        if b {
            assert(text@.subrange(i as int, i + 6) =~= placeholder());
        } else {
            if text@.subrange(i as int, i + 6) == placeholder() {
                assert(text@.subrange(i as int, i + 6)[0] == '{');
                assert(text@.subrange(i as int, i + 6)[1] == 'n');
                assert(text@.subrange(i as int, i + 6)[2] == 'a');
                assert(text@.subrange(i as int, i + 6)[3] == 'm');
                assert(text@.subrange(i as int, i + 6)[4] == 'e');
                assert(text@.subrange(i as int, i + 6)[5] == '}');
            }
        }
    }
    b
}

/// Fills the text template `template`, replacing each placeholder `{name}`
/// with `name`.
pub fn fill_template(template: &str, name: &str) -> (r: String)
    ensures
        r@ == filled(template@, name@),
{
    let n = template.unicode_len();
    let mut out = String::new();
    let mut i: usize = 0;
    proof {
        assert(template@.subrange(0, n as int) =~= template@);
    }
    while i < n
        invariant
            i <= n,
            n == template@.len(),
            out@ + filled(template@.subrange(i as int, n as int), name@) == filled(
                template@,
                name@,
            ),
        decreases n - i,
    {
        let ghost rest = template@.subrange(i as int, n as int);
        if placeholder_at(template, i) {
            proof {
                assert(rest.subrange(0, 6) =~= template@.subrange(i as int, i + 6));
                assert(rest.subrange(6, rest.len() as int) =~= template@.subrange(
                    i + 6,
                    n as int,
                ));
            }
            out.append(name);
            i += 6;
        } else {
            proof {
                if rest.len() >= 6 {
                    assert(rest.subrange(0, 6) =~= template@.subrange(i as int, i + 6));
                }
                assert(rest.subrange(1, rest.len() as int) =~= template@.subrange(
                    i + 1,
                    n as int,
                ));
            }
            let c = template.substring_char(i, i + 1);
            proof {
                assert(c@ =~= seq![rest[0]]);
            }
            out.append(c);
            i += 1;
        }
    }
    proof {
        assert(template@.subrange(n as int, n as int) =~= Seq::<char>::empty());
    }
    out
}

} // verus!
