//! Menus: what a picker is asked to show, the arguments of `rofi`, and the
//! text a pick comes back as.

use crate::providers::allanime::strings_view;
use crate::text::{chars_of, extend, string_of, trim_end_any, trim_end_any_exec};
use vstd::prelude::*;

verus! {

/// A menu to show: its lines (one string, newline-separated), the prompt,
/// whether several lines may be picked, and whether the terminal picker
/// (rather than `rofi`) shows it.
pub struct Menu {
    pub items: String,
    pub prompt: String,
    pub is_multi: bool,
    pub is_not_rofi: bool,
}

/// The menu for these lines and prompt.
pub fn menu(items: &str, prompt: &str, is_multi: bool, is_not_rofi: bool) -> (m: Menu)
    ensures
        m.items@ == items@,
        m.prompt@ == prompt@,
        m.is_multi == is_multi,
        m.is_not_rofi == is_not_rofi,
{
    let mut i = String::new();
    i.append(items);
    let mut p = String::new();
    p.append(prompt);
    Menu { items: i, prompt: p, is_multi, is_not_rofi }
}

/// The arguments of `rofi` for a prompt.
pub open spec fn rofi_args_spec(prompt: Seq<char>, is_multi: bool) -> Seq<Seq<char>> {
    seq![
        "-dmenu"@,
        "-i"@,
        if is_multi {
            "-multi-select"@
        } else {
            ""@
        },
        "-p"@,
        prompt,
    ]
}

/// The arguments of `rofi` for a prompt.
pub fn rofi_args(prompt: &str, is_multi: bool) -> (r: Vec<String>)
    ensures
        strings_view(r@) == rofi_args_spec(prompt@, is_multi),
{
    let mut v: Vec<String> = Vec::new();
    let mut a = String::new();
    a.append("-dmenu");
    v.push(a);
    let mut b = String::new();
    b.append("-i");
    v.push(b);
    let mut c = String::new();
    if is_multi {
        c.append("-multi-select");
    } else {
        c.append("");
    }
    v.push(c);
    let mut d = String::new();
    d.append("-p");
    v.push(d);
    let mut e = String::new();
    e.append(prompt);
    v.push(e);
    v
}

/// A pick as `rofi` prints it, trailing newlines removed.
pub fn rofi_pick(output: &str) -> (r: String)
    ensures
        r@ == trim_end_any(output@, seq!['\n']),
{
    let nl: Vec<char> = vec!['\n'];
    assert(nl@ == seq!['\n']);
    string_of(&trim_end_any_exec(&chars_of(output), &nl))
}

/// Each line followed by a newline.
pub open spec fn terminated(lines: Seq<Seq<char>>) -> Seq<char>
    decreases lines.len(),
{
    if lines.len() == 0 {
        Seq::empty()
    } else {
        terminated(lines.drop_last()) + lines.last() + seq!['\n']
    }
}

/// The picked lines of the terminal picker as one text: each line ended by
/// a newline, then trailing newlines removed.
pub fn skim_pick(picked: &Vec<String>) -> (r: String)
    ensures
        r@ == trim_end_any(terminated(strings_view(picked@)), seq!['\n']),
{
    let nl: Vec<char> = vec!['\n'];
    assert(nl@ == seq!['\n']);
    let mut out: Vec<char> = Vec::new();
    let mut i: usize = 0;
    while i < picked.len()
        invariant
            nl@ == seq!['\n'],
            i <= picked@.len(),
            out@ == terminated(strings_view(picked@.subrange(0, i as int))),
        decreases picked.len() - i,
    {
        extend(&mut out, &chars_of(picked[i].as_str()));
        extend(&mut out, &nl);
        proof {
            let pre = picked@.subrange(0, i + 1);
            assert(strings_view(pre).drop_last() == strings_view(picked@.subrange(0, i as int)));
            assert(strings_view(pre).last() == picked@[i as int]@);
        }
        i = i + 1;
    }
    assert(picked@.subrange(0, picked@.len() as int) == picked@);
    string_of(&trim_end_any_exec(&out, &nl))
}

} // verus!
