//! The XDG autostart entry that starts the applet on login.
//!
//! The entry is a desktop file whose `Exec` key runs the applet's
//! executable. The path is written as one quoted argument: inside the
//! quotes `"`, `` ` ``, `$` and `\` take a backslash, and the value's own
//! escaping then doubles every backslash and writes newline, tab and
//! carriage return as `\n`, `\t` and `\r`.

use vstd::prelude::*;
use vstd::string::*;

verus! {

/// How one character of the executable's path is written inside the
/// quoted `Exec` argument.
pub open spec fn escape_exec_char(c: char) -> Seq<char> {
    if c == '"' || c == '`' || c == '$' {
        seq!['\\', '\\', c]
    } else if c == '\\' {
        seq!['\\', '\\', '\\', '\\']
    } else if c == '\n' {
        seq!['\\', 'n']
    } else if c == '\t' {
        seq!['\\', 't']
    } else if c == '\r' {
        seq!['\\', 'r']
    } else {
        seq![c]
    }
}

/// The path written inside the quoted `Exec` argument.
pub open spec fn escape_exec(s: Seq<char>) -> Seq<char>
    decreases s.len(),
{
    if s.len() == 0 {
        Seq::empty()
    } else {
        escape_exec(s.drop_last()) + escape_exec_char(s.last())
    }
}

/// The characters that the `Exec` argument cannot hold as themselves.
pub open spec fn is_reserved(c: char) -> bool {
    c == '"' || c == '`' || c == '$' || c == '\\' || c == '\n' || c == '\t' || c == '\r'
}

/// Reads a desktop-entry string value: `\\\\`, `\\n`, `\\t`, `\\r` and `\\s`
/// stand for a backslash, newline, tab, carriage return and space; every
/// other character stands for itself.
pub open spec fn unescape_value(t: Seq<char>) -> Seq<char>
    decreases t.len(),
{
    if t.len() == 0 {
        Seq::empty()
    } else if t.len() >= 2 && t[0] == '\\' && (t[1] == '\\' || t[1] == 'n' || t[1] == 't' || t[1]
        == 'r' || t[1] == 's') {
        let c = if t[1] == '\\' {
            '\\'
        } else if t[1] == 'n' {
            '\n'
        } else if t[1] == 't' {
            '\t'
        } else if t[1] == 'r' {
            '\r'
        } else {
            ' '
        };
        seq![c] + unescape_value(t.skip(2))
    } else {
        seq![t[0]] + unescape_value(t.drop_first())
    }
}

/// Reads the inside of a quoted `Exec` argument: a backslash before `"`,
/// `` ` ``, `$` or `\\` stands for that character; every other character
/// stands for itself.
pub open spec fn unquote_arg(u: Seq<char>) -> Seq<char>
    decreases u.len(),
{
    if u.len() == 0 {
        Seq::empty()
    } else if u.len() >= 2 && u[0] == '\\' && (u[1] == '"' || u[1] == '`' || u[1] == '$' || u[1]
        == '\\') {
        seq![u[1]] + unquote_arg(u.skip(2))
    } else {
        seq![u[0]] + unquote_arg(u.drop_first())
    }
}

/// How a character reads after the value's escaping is undone.
spec fn quoted_form(c: char) -> Seq<char> {
    if c == '"' || c == '`' || c == '$' || c == '\\' {
        seq!['\\', c]
    } else {
        seq![c]
    }
}

proof fn lemma_escape_front(p: Seq<char>)
    requires
        p.len() > 0,
    ensures
        escape_exec(p) == escape_exec_char(p[0]) + escape_exec(p.drop_first()),
    decreases p.len(),
{
    if p.len() == 1 {
        assert(p.drop_last() =~= Seq::<char>::empty());
        assert(p.drop_first() =~= Seq::<char>::empty());
        assert(escape_exec(Seq::<char>::empty()) == Seq::<char>::empty());
        assert(escape_exec(p) =~= escape_exec_char(p[0]) + escape_exec(p.drop_first()));
    } else {
        let q = p.drop_last();
        lemma_escape_front(q);
        assert(q[0] == p[0]);
        assert(q.drop_first() =~= p.drop_first().drop_last());
        assert(p.drop_first().last() == p.last());
        assert(escape_exec(p.drop_first()) == escape_exec(p.drop_first().drop_last())
            + escape_exec_char(p.drop_first().last()));
        assert(escape_exec(p) =~= escape_exec_char(p[0]) + escape_exec(p.drop_first()));
    }
}

proof fn lemma_unescape_piece(c: char, rest: Seq<char>)
    ensures
        unescape_value(escape_exec_char(c) + rest) == quoted_form(c) + unescape_value(rest),
{
    let t = escape_exec_char(c) + rest;
    if c == '"' || c == '`' || c == '$' {
        let t2 = t.skip(2);
        assert(t2 =~= seq![c] + rest);
        assert(t2.drop_first() =~= rest);
        assert(unescape_value(t2) == seq![c] + unescape_value(rest));
        assert(unescape_value(t) == seq!['\\'] + unescape_value(t2));
        assert(unescape_value(t) =~= quoted_form(c) + unescape_value(rest));
    } else if c == '\\' {
        let t2 = t.skip(2);
        assert(t2 =~= seq!['\\', '\\'] + rest);
        assert(t2.skip(2) =~= rest);
        assert(unescape_value(t2) == seq!['\\'] + unescape_value(rest));
        assert(unescape_value(t) == seq!['\\'] + unescape_value(t2));
        assert(unescape_value(t) =~= quoted_form(c) + unescape_value(rest));
    } else if c == '\n' || c == '\t' || c == '\r' {
        assert(t.skip(2) =~= rest);
        assert(unescape_value(t) =~= quoted_form(c) + unescape_value(rest));
    } else {
        assert(t.drop_first() =~= rest);
        assert(unescape_value(t) =~= quoted_form(c) + unescape_value(rest));
    }
}

proof fn lemma_unquote_piece(c: char, rest: Seq<char>)
    ensures
        unquote_arg(quoted_form(c) + rest) == seq![c] + unquote_arg(rest),
{
    let u = quoted_form(c) + rest;
    if c == '"' || c == '`' || c == '$' || c == '\\' {
        assert(u.skip(2) =~= rest);
    } else {
        assert(u.drop_first() =~= rest);
    }
}

/// Law: reading the `Exec` argument back, undoing the value's escaping and
/// then the quoting, gives the executable's path, whatever it holds.
pub proof fn lemma_exec_reads_back(p: Seq<char>)
    ensures
        unquote_arg(unescape_value(escape_exec(p))) == p,
    decreases p.len(),
{
    if p.len() == 0 {
        assert(unescape_value(Seq::<char>::empty()) == Seq::<char>::empty());
        assert(unquote_arg(Seq::<char>::empty()) == Seq::<char>::empty());
    } else {
        let rest = p.drop_first();
        lemma_escape_front(p);
        lemma_unescape_piece(p[0], escape_exec(rest));
        lemma_unquote_piece(p[0], unescape_value(escape_exec(rest)));
        lemma_exec_reads_back(rest);
        assert(seq![p[0]] + rest =~= p);
    }
}

/// Law: a path without reserved characters is written as it is.
pub proof fn lemma_plain_path_as_is(p: Seq<char>)
    requires
        forall|i: int| 0 <= i < p.len() ==> !is_reserved(#[trigger] p[i]),
    ensures
        escape_exec(p) == p,
    decreases p.len(),
{
    if p.len() > 0 {
        let q = p.drop_last();
        assert forall|i: int| 0 <= i < q.len() implies !is_reserved(#[trigger] q[i]) by {
            assert(q[i] == p[i]);
        }
        lemma_plain_path_as_is(q);
        assert(!is_reserved(p[p.len() - 1]));
        assert(escape_exec(p) =~= p);
    }
}

/// The text of the autostart entry for the executable at `exec`.
pub open spec fn autostart_text(exec: Seq<char>) -> Seq<char> {
    "[Desktop Entry]\nType=Application\nName=cosmic-caffeine\nExec=\""@ + escape_exec(exec)
        + "\"\nX-GNOME-Autostart-enabled=true\n"@
}

/// The text of the autostart entry that runs the executable at `exec`.
pub fn autostart_entry(exec: &str) -> (text: String)
    ensures
        text@ == autostart_text(exec@),
        // The path is written as it is when it holds no reserved character.
        (forall|i: int| 0 <= i < exec@.len() ==> !is_reserved(#[trigger] exec@[i])) ==> text@
            == "[Desktop Entry]\nType=Application\nName=cosmic-caffeine\nExec=\""@ + exec@
            + "\"\nX-GNOME-Autostart-enabled=true\n"@,
        // Undoing the escaping and quoting of the `Exec` argument gives the path.
        ({
            let head = "[Desktop Entry]\nType=Application\nName=cosmic-caffeine\nExec=\""@;
            let tail = "\"\nX-GNOME-Autostart-enabled=true\n"@;
            &&& text@.len() >= head.len() + tail.len()
            &&& text@.subrange(0, head.len() as int) == head
            &&& text@.subrange(text@.len() - tail.len(), text@.len() as int) == tail
            &&& unquote_arg(
                unescape_value(text@.subrange(head.len() as int, text@.len() - tail.len())),
            ) == exec@
        }),
{
    proof {
        lemma_exec_reads_back(exec@);
        if forall|i: int| 0 <= i < exec@.len() ==> !is_reserved(#[trigger] exec@[i]) {
            lemma_plain_path_as_is(exec@);
        }
    }
    let head = "[Desktop Entry]\nType=Application\nName=cosmic-caffeine\nExec=\"";
    let mut text = String::from_str(head);
    let len = exec.unicode_len();
    let mut i: usize = 0;
    assert(exec@.take(0) =~= Seq::<char>::empty());
    while i < len
        invariant
            i <= len,
            len == exec@.len(),
            text@ == head@ + escape_exec(exec@.take(i as int)),
        decreases len - i,
    {
        let c = exec.get_char(i);
        let piece = exec.substring_char(i, i + 1);
        assert(piece@ =~= seq![c]);
        let ghost before = text@;
        proof {
            reveal_strlit("\\\\");
            reveal_strlit("\\\\\\\\");
            reveal_strlit("\\n");
            reveal_strlit("\\t");
            reveal_strlit("\\r");
        }
        if c == '"' || c == '`' || c == '$' {
            text.append("\\\\");
            text.append(piece);
            assert(text@ =~= before + escape_exec_char(c));
        } else if c == '\\' {
            text.append("\\\\\\\\");
            assert(text@ =~= before + escape_exec_char(c));
        } else if c == '\n' {
            text.append("\\n");
            assert(text@ =~= before + escape_exec_char(c));
        } else if c == '\t' {
            text.append("\\t");
            assert(text@ =~= before + escape_exec_char(c));
        } else if c == '\r' {
            text.append("\\r");
            assert(text@ =~= before + escape_exec_char(c));
        } else {
            text.append(piece);
            assert(text@ =~= before + escape_exec_char(c));
        }
        assert(text@ =~= before + escape_exec_char(c));
        assert(exec@.take(i + 1).drop_last() =~= exec@.take(i as int));
        assert(exec@.take(i + 1).last() == c);
        i = i + 1;
    }
    assert(exec@.take(len as int) =~= exec@);
    text.append("\"\nX-GNOME-Autostart-enabled=true\n");
    proof {
        let h = head@;
        let tl = "\"\nX-GNOME-Autostart-enabled=true\n"@;
        let e = escape_exec(exec@);
        assert(text@ =~= h + e + tl);
        assert(text@.subrange(0, h.len() as int) =~= h);
        assert(text@.subrange(text@.len() - tl.len(), text@.len() as int) =~= tl);
        assert(text@.subrange(h.len() as int, text@.len() - tl.len()) =~= e);
    }
    text
}

} // verus!
