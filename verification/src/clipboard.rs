//! Which clipboard tools are tried, in order, to copy text.

use vstd::prelude::*;
use vstd::string::StringExecFns;

verus! {

/// The clipboard commands, program first, in the order they are tried:
/// `pbcopy` (macOS), `xclip -selection clipboard` and `xsel -ib` (X11),
/// `wl-copy` (Wayland).  Each reads the text from its standard input.
pub open spec fn clipboard_commands_spec() -> Seq<Seq<Seq<char>>> {
    seq![
        seq!["pbcopy"@],
        seq!["xclip"@, "-selection"@, "clipboard"@],
        seq!["xsel"@, "-ib"@],
        seq!["wl-copy"@],
    ]
}

fn command(words: &[&str]) -> (res: Vec<String>)
    ensures
        res.deep_view() == words@.map_values(|w: &str| w@),
{
    let mut res: Vec<String> = Vec::new();
    let mut i: usize = 0;
    while i < words.len()
        invariant
            i <= words.len(),
            res.deep_view() == words@.take(i as int).map_values(|w: &str| w@),
        decreases words.len() - i,
    {
        let ghost before = res.deep_view();
        res.push(String::from_str(words[i]));
        assert(res.deep_view() =~= before.push(words@[i as int]@));
        assert(words@.take(i + 1).map_values(|w: &str| w@) =~= words@.take(i as int).map_values(
            |w: &str| w@,
        ).push(words@[i as int]@));
        i = i + 1;
    }
    assert(words@.take(i as int) =~= words@);
    res
}

/// The clipboard commands in the order they are tried; the first one that
/// accepts the text wins.
pub fn clipboard_commands() -> (res: Vec<Vec<String>>)
    ensures
        res.deep_view() == clipboard_commands_spec(),
{
    let mut res: Vec<Vec<String>> = Vec::new();
    let a = command(&["pbcopy"]);
    let b = command(&["xclip", "-selection", "clipboard"]);
    let c = command(&["xsel", "-ib"]);
    let d = command(&["wl-copy"]);
    let ghost (av, bv, cv, dv) = (a.deep_view(), b.deep_view(), c.deep_view(), d.deep_view());
    res.push(a);
    res.push(b);
    res.push(c);
    res.push(d);
    assert(res.deep_view() =~= seq![av, bv, cv, dv]);
    assert(av =~= seq!["pbcopy"@]);
    assert(bv =~= seq!["xclip"@, "-selection"@, "clipboard"@]);
    assert(cv =~= seq!["xsel"@, "-ib"@]);
    assert(dv =~= seq!["wl-copy"@]);
    res
}

} // verus!
