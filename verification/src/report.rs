//! What the server tells its operator as it starts.
use vstd::prelude::*;
use vstd::string::*;

use crate::text::chars_of;

verus! {

/// The parts of `text` between its line feeds, empty ones among them.
pub open spec fn line_pieces(text: Seq<char>) -> Seq<Seq<char>>
    decreases text.len(),
{
    if text.len() == 0 {
        seq![Seq::empty()]
    } else {
        let before = line_pieces(text.drop_last());
        if text.last() == '\n' {
            before.push(Seq::empty())
        } else {
            before.drop_last().push(before.last().push(text.last()))
        }
    }
}

/// A line without the carriage return that belongs to its ending.
pub open spec fn without_return(line: Seq<char>) -> Seq<char> {
    if line.len() > 0 && line.last() == '\r' {
        line.drop_last()
    } else {
        line
    }
}

/// The lines of `text`: each ends with a line feed, before which there may be a carriage return;
/// the ending of the last line may be missing.
pub open spec fn lines(text: Seq<char>) -> Seq<Seq<char>> {
    let pieces = line_pieces(text);
    let ended = pieces.drop_last().map_values(|line: Seq<char>| without_return(line));
    if pieces.last().len() == 0 {
        ended
    } else {
        ended.push(pieces.last())
    }
}

/// A logo between two empty lines, each line of it moved to the right by one.
pub open spec fn banner_text(logo: Seq<char>) -> Seq<Seq<char>> {
    seq![Seq::<char>::empty()] + lines(logo).map_values(|line: Seq<char>| seq![' '] + line) + seq![
        Seq::<char>::empty(),
    ]
}

/// The contents of each text.
pub open spec fn contents(texts: Seq<String>) -> Seq<Seq<char>> {
    texts.map_values(|text: String| text@)
}

proof fn contents_push(texts: Seq<String>, text: String)
    ensures
        contents(texts.push(text)) == contents(texts).push(text@),
{
    assert(contents(texts.push(text)) =~= contents(texts).push(text@));
}

/// A text of one line has just that line.
pub proof fn single_line(text: Seq<char>)
    requires
        text.len() > 0,
        !text.contains('\n'),
    ensures
        lines(text) == seq![text],
{
    single_piece(text);
    assert(line_pieces(text).drop_last().map_values(|line: Seq<char>| without_return(line))
        =~= Seq::empty());
    assert(lines(text) =~= seq![text]);
}

proof fn single_piece(text: Seq<char>)
    requires
        !text.contains('\n'),
    ensures
        line_pieces(text) == seq![text],
    decreases text.len(),
{
    if text.len() > 0 {
        let init = text.drop_last();
        assert forall|k: int| 0 <= k < init.len() implies init[k] != '\n' by {
            assert(text[k] == init[k]);
        }
        assert(text[text.len() - 1] != '\n');
        single_piece(init);
        assert(init.push(text.last()) =~= text);
        assert(line_pieces(text) =~= seq![text]);
    } else {
        assert(text =~= Seq::empty());
    }
}

/// The lines of `text`.
pub fn lines_of(text: &str) -> (res: Vec<String>)
    ensures
        contents(res@) == lines(text@),
{
    let chars = chars_of(text);
    let mut done: Vec<String> = Vec::new();
    let mut start: usize = 0;
    let mut i: usize = 0;
    proof {
        assert(text@.take(0) =~= Seq::empty());
        assert(contents(done@) =~= line_pieces(text@.take(0)).drop_last().map_values(
            |line: Seq<char>| without_return(line),
        ));
        assert(text@.subrange(0, 0) =~= Seq::empty());
    }
    while i < chars.len()
        invariant
            start <= i <= chars@.len(),
            chars@ == text@,
            line_pieces(text@.take(i as int)).len() >= 1,
            line_pieces(text@.take(i as int)).last() == text@.subrange(start as int, i as int),
            contents(done@) == line_pieces(text@.take(i as int)).drop_last().map_values(
                |line: Seq<char>| without_return(line),
            ),
        decreases chars@.len() - i,
    {
        let ghost pieces = line_pieces(text@.take(i as int));
        let ghost longer = line_pieces(text@.take(i + 1));
        proof {
            assert(text@.take(i + 1).drop_last() =~= text@.take(i as int));
            assert(text@.take(i + 1).last() == text@[i as int]);
        }
        if chars[i] == '\n' {
            let end: usize = if i > start && chars[i - 1] == '\r' {
                i - 1
            } else {
                i
            };
            let line = text.substring_char(start, end).to_string();
            proof {
                assert(longer.drop_last() =~= pieces);
                assert(line@ =~= without_return(pieces.last()));
                contents_push(done@, line);
                assert(contents(done@.push(line)) =~= longer.drop_last().map_values(
                    |line: Seq<char>| without_return(line),
                ));
                assert(text@.subrange(i + 1, i + 1) =~= Seq::empty());
            }
            done.push(line);
            start = i + 1;
        } else {
            proof {
                assert(longer.drop_last() =~= pieces.drop_last());
                assert(text@.subrange(start as int, i + 1) =~= text@.subrange(
                    start as int,
                    i as int,
                ).push(text@[i as int]));
            }
        }
        i = i + 1;
    }
    proof {
        assert(text@.take(text@.len() as int) =~= text@);
    }
    if start < chars.len() {
        let last = text.substring_char(start, chars.len()).to_string();
        proof {
            contents_push(done@, last);
        }
        done.push(last);
    }
    done
}

/// The lines that show a logo.
pub fn banner_lines(logo: &str) -> (res: Vec<String>)
    ensures
        contents(res@) == banner_text(logo@),
{
    let logo_lines = lines_of(logo);
    let ghost all = lines(logo@);
    let ghost moved = |line: Seq<char>| seq![' '] + line;
    let mut shown: Vec<String> = Vec::new();
    shown.push(String::new());
    let mut i: usize = 0;
    proof {
        assert(contents(shown@) =~= seq![Seq::<char>::empty()] + all.take(0).map_values(moved));
    }
    while i < logo_lines.len()
        invariant
            i <= logo_lines@.len(),
            contents(logo_lines@) == all,
            moved == (|line: Seq<char>| seq![' '] + line),
            contents(shown@) == seq![Seq::<char>::empty()] + all.take(i as int).map_values(moved),
        decreases logo_lines@.len() - i,
    {
        proof {
            reveal_strlit(" ");
            assert(" "@ =~= seq![' ']);
        }
        let mut line = " ".to_string();
        line.append(logo_lines[i].as_str());
        proof {
            assert(all[i as int] == logo_lines@[i as int]@);
            assert(line@ == moved(all[i as int]));
            contents_push(shown@, line);
            assert(contents(shown@.push(line)) =~= seq![Seq::<char>::empty()] + all.take(
                i + 1,
            ).map_values(moved));
        }
        shown.push(line);
        i = i + 1;
    }
    let last = String::new();
    proof {
        assert(all.take(all.len() as int) =~= all);
        contents_push(shown@, last);
        assert(contents(shown@.push(last)) =~= banner_text(logo@));
    }
    shown.push(last);
    shown
}

/// The lines with which a server that is ready greets its operator.
pub fn banner() -> (res: Vec<String>)
    ensures
        contents(res@) == seq![""@, " Hickory DNS"@, ""@],
{
    let res = banner_lines("Hickory DNS");
    proof {
        reveal_strlit("Hickory DNS");
        reveal_strlit(" Hickory DNS");
        reveal_strlit("");
        let logo = "Hickory DNS"@;
        assert(!logo.contains('\n'));
        single_line(logo);
        assert(seq![' '] + logo =~= " Hickory DNS"@);
        assert(""@ =~= Seq::empty());
        assert(contents(res@) =~= seq![""@, " Hickory DNS"@, ""@]);
    }
    res
}

/// What is said at the end of a server of the given version.
pub open spec fn end_text(version: Seq<char>, outcome: Result<(), Seq<char>>) -> Seq<char> {
    match outcome {
        Ok(_) => "Hickory DNS "@ + version + " stopping"@,
        Err(err) => "Hickory DNS "@ + version + " has encountered an error: "@ + err,
    }
}

/// The end of a server of the given version, from how its work ended: in order, or with an error
/// that is to be reported as such.
pub fn ended(version: &str, outcome: Result<(), String>) -> (res: Result<String, String>)
    ensures
        match (outcome, res) {
            (Ok(_), Ok(text)) => text@ == end_text(version@, Ok(())),
            (Err(err), Err(text)) => text@ == end_text(version@, Err(err@)),
            _ => false,
        },
{
    let mut text = "Hickory DNS ".to_string();
    text.append(version);
    match outcome {
        Ok(_) => {
            text.append(" stopping");
            Ok(text)
        },
        Err(err) => {
            text.append(" has encountered an error: ");
            text.append(err.as_str());
            Err(text)
        },
    }
}

/// The warning of a listener that logs TLS session keys: where they go, or that they go nowhere.
pub open spec fn keylog_text(transport: Seq<char>, path: Option<Seq<char>>) -> Seq<char> {
    match path {
        Some(path) => transport
            + " TLS session key logging is ENABLED, keys will be written to "@ + path
            + " — anything with read access to that file can decrypt captured "@ + transport
            + " traffic"@,
        None => transport
            + " ssl_keylog_enabled is set but SSLKEYLOGFILE env var is unset; no keys will be written"@,
    }
}

/// The warning of a listener that logs TLS session keys. `path` is where the environment asks for
/// them to be written, as it is to be shown.
pub fn keylog_for(transport: &str, path: Option<&str>) -> (res: String)
    ensures
        res@ == keylog_text(
            transport@,
            match path {
                Some(path) => Some(path@),
                None => None,
            },
        ),
{
    let mut res = transport.to_string();
    match path {
        Some(path) => {
            res.append(" TLS session key logging is ENABLED, keys will be written to ");
            res.append(path);
            res.append(" — anything with read access to that file can decrypt captured ");
            res.append(transport);
            res.append(" traffic");
        },
        None => {
            res.append(
                " ssl_keylog_enabled is set but SSLKEYLOGFILE env var is unset; no keys will be written",
            );
        },
    }
    res
}

proof fn pieces_of_joined(first: Seq<char>, rest: Seq<char>)
    ensures
        line_pieces(first.push('\n') + rest) == line_pieces(first) + line_pieces(rest),
        line_pieces(rest).len() >= 1,
    decreases rest.len(),
{
    let whole = first.push('\n') + rest;
    if rest.len() == 0 {
        assert(whole =~= first.push('\n'));
        assert(whole.drop_last() =~= first);
        assert(line_pieces(whole) =~= line_pieces(first) + line_pieces(rest));
    } else {
        let init = rest.drop_last();
        pieces_of_joined(first, init);
        assert(whole.drop_last() =~= first.push('\n') + init);
        assert(line_pieces(whole) =~= line_pieces(first) + line_pieces(rest));
    }
}

/// The lines of a text are its first line, up to the line feed and without a carriage return
/// before that, and then the lines of what follows. An empty text has none, and what comes after
/// the last line feed is a line as it stands.
pub proof fn lines_are_cut_at_line_feeds(first: Seq<char>, rest: Seq<char>)
    requires
        !first.contains('\n'),
    ensures
        lines(first + seq!['\n'] + rest) == seq![
            if first.len() > 0 && first[first.len() - 1] == '\r' {
                first.take(first.len() - 1)
            } else {
                first
            },
        ] + lines(rest),
        lines(first) == if first.len() == 0 {
            Seq::<Seq<char>>::empty()
        } else {
            seq![first]
        },
{
    let whole = first.push('\n') + rest;
    assert(first + seq!['\n'] + rest =~= whole);
    pieces_of_joined(first, rest);
    single_piece(first);
    let pieces = line_pieces(rest);
    let cut = |line: Seq<char>| without_return(line);
    assert(line_pieces(whole) =~= seq![first] + pieces);
    assert(line_pieces(whole).last() == pieces.last());
    assert(line_pieces(whole).drop_last() =~= seq![first] + pieces.drop_last());
    assert(line_pieces(whole).drop_last().map_values(cut) =~= seq![without_return(first)]
        + pieces.drop_last().map_values(cut));
    assert(lines(whole) =~= seq![without_return(first)] + lines(rest));
    assert(line_pieces(first).drop_last().map_values(cut) =~= Seq::empty());
    assert(lines(first) =~= if first.len() == 0 {
        Seq::<Seq<char>>::empty()
    } else {
        seq![first]
    });
}

/// A logo is shown line by line, each moved to the right by one space, between two empty lines.
pub proof fn logo_is_shown_line_by_line(logo: &str, found: Vec<String>, res: Vec<String>)
    requires
        call_ensures(lines_of, (logo,), found),
        call_ensures(banner_lines, (logo,), res),
    ensures
        found@.len() == lines(logo@).len(),
        forall|i: int| 0 <= i < found@.len() ==> (#[trigger] found@[i])@ == lines(logo@)[i],
        res@.len() == found@.len() + 2,
        res@[0]@.len() == 0,
        res@[res@.len() - 1]@.len() == 0,
        forall|i: int|
            0 <= i < found@.len() ==> res@[i + 1]@ == seq![' '] + (#[trigger] found@[i])@,
{
    let all = lines(logo@);
    assert(contents(found@) == all);
    assert(contents(res@) == banner_text(logo@));
    assert forall|i: int| 0 <= i < found@.len() implies (#[trigger] found@[i])@ == all[i]
        && res@[i + 1]@ == seq![' '] + found@[i]@ by {
        assert(contents(found@)[i] == found@[i]@);
        assert(contents(res@)[i + 1] == res@[i + 1]@);
    }
    assert(contents(res@)[0] == res@[0]@);
    assert(contents(res@)[res@.len() - 1] == res@[res@.len() - 1]@);
}

/// What a server says of its key log and of its end says what it is about: the transport, the path
/// where one is given, the version, and the error where there is one.
pub proof fn reports_say_what_they_are_about(
    transport: &str,
    path: &str,
    written: String,
    unwritten: String,
    version: &str,
    err: String,
    stopped: Result<String, String>,
    failed: Result<String, String>,
)
    requires
        call_ensures(keylog_for, (transport, Some(path)), written),
        call_ensures(keylog_for, (transport, None), unwritten),
        call_ensures(ended, (version, Ok(())), stopped),
        call_ensures(ended, (version, Err(err)), failed),
    ensures
        written@ == transport@ + " TLS session key logging is ENABLED, keys will be written to "@
            + path@ + " — anything with read access to that file can decrypt captured "@
            + transport@ + " traffic"@,
        unwritten@ == transport@
            + " ssl_keylog_enabled is set but SSLKEYLOGFILE env var is unset; no keys will be written"@,
        stopped matches Ok(text) && text@ == "Hickory DNS "@ + version@ + " stopping"@,
        failed matches Err(text) && text@ == "Hickory DNS "@ + version@
            + " has encountered an error: "@ + err@,
{
}

} // verus!
