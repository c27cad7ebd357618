use vstd::prelude::*;
use vstd::string::StringExecFns;

verus! {

/// The parts joined with `+` between neighbours.
pub open spec fn join_plus(parts: Seq<Seq<char>>) -> Seq<char>
    decreases parts.len(),
{
    if parts.len() == 0 {
        Seq::empty()
    } else if parts.len() == 1 {
        parts[0]
    } else {
        join_plus(parts.drop_last()) + seq!['+'] + parts.last()
    }
}

pub open spec fn push_if(parts: Seq<Seq<char>>, on: bool, p: Seq<char>) -> Seq<Seq<char>> {
    if on {
        parts.push(p)
    } else {
        parts
    }
}

/// The labels of a hotkey, modifiers first in the order Ctrl, Alt, Shift, Super, then the key.
pub open spec fn hotkey_parts(
    ctrl: bool,
    alt: bool,
    shift: bool,
    super_key: bool,
    key: Option<Seq<char>>,
) -> Seq<Seq<char>> {
    let p = push_if(Seq::empty(), ctrl, seq!['C', 't', 'r', 'l']);
    let p = push_if(p, alt, seq!['A', 'l', 't']);
    let p = push_if(p, shift, seq!['S', 'h', 'i', 'f', 't']);
    let p = push_if(p, super_key, seq!['S', 'u', 'p', 'e', 'r']);
    match key {
        Some(k) => p.push(k),
        None => p,
    }
}

pub open spec fn opt_view(key: Option<&str>) -> Option<Seq<char>> {
    match key {
        Some(k) => Some(k@),
        None => None,
    }
}

proof fn lemma_join_push(parts: Seq<Seq<char>>, p: Seq<char>)
    ensures
        join_plus(parts.push(p)) == if parts.len() == 0 {
            p
        } else {
            join_plus(parts) + seq!['+'] + p
        },
{
    assert(parts.push(p).drop_last() =~= parts);
}

/// Appends one label to the text built so far, with a `+` unless it is the first.
fn append_part(text: &mut String, parts: Ghost<Seq<Seq<char>>>, first: bool, part: &str)
    requires
        old(text)@ == join_plus(parts@),
        first == (parts@.len() == 0),
    ensures
        final(text)@ == join_plus(parts@.push(part@)),
{
    proof {
        lemma_join_push(parts@, part@);
    }
    if !first {
        text.append("+");
    }
    text.append(part);
    proof {
        reveal_strlit("+");
    }
}

/// Formats a hotkey as its labels joined by `+`: `Ctrl+Shift+K`.
pub fn format_hotkey_text(
    ctrl: bool,
    alt: bool,
    shift: bool,
    super_key: bool,
    key: Option<&str>,
) -> (r: String)
    ensures
        r@ == join_plus(hotkey_parts(ctrl, alt, shift, super_key, opt_view(key))),
{
    let mut text = String::new();
    let ghost mut parts: Seq<Seq<char>> = Seq::empty();
    let mut first = true;
    if ctrl {
        proof {
            reveal_strlit("Ctrl");
            assert("Ctrl"@ =~= seq!['C', 't', 'r', 'l']);
        }
        append_part(&mut text, Ghost(parts), first, "Ctrl");
        proof {
            parts = parts.push("Ctrl"@);
        }
        first = false;
    }
    if alt {
        proof {
            reveal_strlit("Alt");
            assert("Alt"@ =~= seq!['A', 'l', 't']);
        }
        append_part(&mut text, Ghost(parts), first, "Alt");
        proof {
            parts = parts.push("Alt"@);
        }
        first = false;
    }
    if shift {
        proof {
            reveal_strlit("Shift");
            assert("Shift"@ =~= seq!['S', 'h', 'i', 'f', 't']);
        }
        append_part(&mut text, Ghost(parts), first, "Shift");
        proof {
            parts = parts.push("Shift"@);
        }
        first = false;
    }
    if super_key {
        proof {
            reveal_strlit("Super");
            assert("Super"@ =~= seq!['S', 'u', 'p', 'e', 'r']);
        }
        append_part(&mut text, Ghost(parts), first, "Super");
        proof {
            parts = parts.push("Super"@);
        }
        first = false;
    }
    if let Some(k) = key {
        append_part(&mut text, Ghost(parts), first, k);
        proof {
            parts = parts.push(k@);
        }
    }
    assert(parts == hotkey_parts(ctrl, alt, shift, super_key, opt_view(key)));
    text
}

} // verus!
