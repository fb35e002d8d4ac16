//! Unix paths: their parts, their extension and the rule against `..`.
use vstd::prelude::*;
use vstd::string::*;
use vstd::utf8::*;

use crate::text::same_bytes;

verus! {

/// The byte that separates the parts of a path, `/`.
pub const SEPARATOR: u8 = 0x2f;

/// The byte `.`.
pub const DOT: u8 = 0x2e;

/// A path of the file system, as the bytes that the system uses for it.
#[derive(Debug, PartialEq, Eq)]
pub struct UnixPath {
    pub bytes: Vec<u8>,
}

impl View for UnixPath {
    type V = Seq<u8>;

    open spec fn view(&self) -> Seq<u8> {
        self.bytes@
    }
}

/// The parts of `path` between its separators, empty ones among them.
pub open spec fn segments(path: Seq<u8>) -> Seq<Seq<u8>>
    decreases path.len(),
{
    if path.len() == 0 {
        seq![Seq::empty()]
    } else {
        let before = segments(path.drop_last());
        if path.last() == SEPARATOR {
            before.push(Seq::empty())
        } else {
            before.drop_last().push(before.last().push(path.last()))
        }
    }
}

/// The part `..`, which leads to the parent directory.
pub open spec fn parent_dir() -> Seq<u8> {
    seq![DOT, DOT]
}

/// Whether `..` is a part of `path`.
pub open spec fn has_parent_dir(path: Seq<u8>) -> bool {
    segments(path).contains(parent_dir())
}

/// Whether a part counts when the last name of a path is looked for: empty parts and `.` do not.
pub open spec fn names_something(segment: Seq<u8>) -> bool {
    segment.len() > 0 && segment != seq![DOT]
}

/// The last part that counts, if any.
pub open spec fn last_name(parts: Seq<Seq<u8>>) -> Option<Seq<u8>>
    decreases parts.len(),
{
    if parts.len() == 0 {
        None
    } else if names_something(parts.last()) {
        Some(parts.last())
    } else {
        last_name(parts.drop_last())
    }
}

/// The final name of `path`: its last part that counts, unless that is `..`.
pub open spec fn file_name(path: Seq<u8>) -> Option<Seq<u8>> {
    match last_name(segments(path)) {
        Some(name) => if name == parent_dir() {
            None
        } else {
            Some(name)
        },
        None => None,
    }
}

/// What follows the last dot of a file name, unless the only dot is its first byte.
pub open spec fn name_extension(name: Seq<u8>) -> Option<Seq<u8>>
    decreases name.len(),
{
    if name.len() <= 1 {
        None
    } else if name.last() == DOT {
        Some(Seq::empty())
    } else {
        match name_extension(name.drop_last()) {
            Some(ext) => Some(ext.push(name.last())),
            None => None,
        }
    }
}

/// The extension of the file that `path` names.
pub open spec fn extension(path: Seq<u8>) -> Option<Seq<u8>> {
    match file_name(path) {
        Some(name) => name_extension(name),
        None => None,
    }
}

/// Whether the file that `path` names has the extension `ext`.
pub open spec fn has_extension(path: Seq<u8>, ext: Seq<char>) -> bool {
    extension(path) == Some(encode_utf8(ext))
}

/// Whether `path` starts at the root.
pub open spec fn is_absolute(path: Seq<u8>) -> bool {
    path.len() > 0 && path[0] == SEPARATOR
}

/// Where `path` lies when it is taken from the directory `base`: an absolute path replaces `base`.
pub open spec fn joined(base: Seq<u8>, path: Seq<u8>) -> Seq<u8> {
    if is_absolute(path) || base.len() == 0 {
        path
    } else if base.last() == SEPARATOR {
        base + path
    } else {
        base.push(SEPARATOR) + path
    }
}

/// The path that the given parts make up.
pub open spec fn with_separators(parts: Seq<Seq<u8>>) -> Seq<u8>
    decreases parts.len(),
{
    if parts.len() == 0 {
        Seq::empty()
    } else if parts.len() == 1 {
        parts[0]
    } else {
        with_separators(parts.drop_last()).push(SEPARATOR) + parts.last()
    }
}

proof fn segments_nonempty(path: Seq<u8>)
    ensures
        segments(path).len() >= 1,
    decreases path.len(),
{
    if path.len() > 0 {
        segments_nonempty(path.drop_last());
    }
}

/// The parts of a path hold no separator, and put together again they are the path.
pub proof fn segments_make_up_path(path: Seq<u8>)
    ensures
        with_separators(segments(path)) == path,
        forall|i: int|
            0 <= i < segments(path).len() ==> !(#[trigger] segments(path)[i]).contains(SEPARATOR),
    decreases path.len(),
{
    let parts = segments(path);
    if path.len() > 0 {
        let init = path.drop_last();
        let before = segments(init);
        segments_nonempty(init);
        segments_make_up_path(init);
        if path.last() == SEPARATOR {
            assert(parts.drop_last() =~= before);
            assert(with_separators(parts) =~= path);
        } else {
            let longer = before.last().push(path.last());
            if before.len() == 1 {
                assert(before[0] == init);
                assert(parts =~= seq![longer]);
                assert(with_separators(parts) =~= path);
            } else {
                let head = with_separators(before.drop_last()).push(SEPARATOR);
                assert(parts.drop_last() =~= before.drop_last());
                assert(init == head + before.last());
                assert(with_separators(parts) == head + longer);
                assert(head + longer =~= (head + before.last()).push(path.last()));
                assert(init.push(path.last()) =~= path);
            }
            assert forall|i: int| 0 <= i < parts.len() implies !(#[trigger] parts[i]).contains(
                SEPARATOR,
            ) by {
                if i == parts.len() - 1 {
                    assert(!before.last().contains(SEPARATOR));
                    if longer.contains(SEPARATOR) {
                        let k = choose|k: int| 0 <= k < longer.len() && longer[k] == SEPARATOR;
                        assert(before.last()[k] == SEPARATOR);
                    }
                } else {
                    assert(parts[i] == before[i]);
                }
            }
        }
    }
}

/// The parts of two paths with a separator between them are the parts of the one, then those of
/// the other.
pub proof fn segments_of_joined(base: Seq<u8>, path: Seq<u8>)
    ensures
        segments(base.push(SEPARATOR) + path) == segments(base) + segments(path),
    decreases path.len(),
{
    let whole = base.push(SEPARATOR) + path;
    if path.len() == 0 {
        assert(whole =~= base.push(SEPARATOR));
        assert(whole.drop_last() =~= base);
        assert(segments(whole) =~= segments(base) + segments(path));
    } else {
        let init = path.drop_last();
        segments_of_joined(base, init);
        segments_nonempty(init);
        assert(whole.drop_last() =~= base.push(SEPARATOR) + init);
        assert(segments(whole) =~= segments(base) + segments(path));
    }
}

/// No `..` comes in by joining: where neither the directory nor the path has that part, the
/// joined path has none.
pub proof fn joined_paths_stay_below(base: Seq<u8>, path: Seq<u8>)
    requires
        !has_parent_dir(base),
        !has_parent_dir(path),
    ensures
        !has_parent_dir(joined(base, path)),
{
    if !is_absolute(path) && base.len() > 0 {
        if base.last() == SEPARATOR {
            let dir = base.drop_last();
            assert(base =~= dir.push(SEPARATOR));
            segments_of_joined(dir, path);
            let parts = segments(dir) + segments(path);
            if parts.contains(parent_dir()) {
                let k = choose|k: int| 0 <= k < parts.len() && parts[k] == parent_dir();
                if k < segments(dir).len() {
                    assert(segments(base)[k] == parent_dir());
                } else {
                    assert(segments(path)[k - segments(dir).len()] == parent_dir());
                }
            }
        } else {
            segments_of_joined(base, path);
            let parts = segments(base) + segments(path);
            if parts.contains(parent_dir()) {
                let k = choose|k: int| 0 <= k < parts.len() && parts[k] == parent_dir();
                if k < segments(base).len() {
                    assert(segments(base)[k] == parent_dir());
                } else {
                    assert(segments(path)[k - segments(base).len()] == parent_dir());
                }
            }
        }
    }
}

/// A path without a dot in it has no `..` among its parts.
pub proof fn no_dot_no_parent_dir(path: Seq<u8>)
    requires
        !path.contains(DOT),
    ensures
        !has_parent_dir(path),
{
    segments_hold_no_dot(path);
    if has_parent_dir(path) {
        let parts = segments(path);
        let k = choose|k: int| 0 <= k < parts.len() && parts[k] == parent_dir();
        assert(parts[k][0] == DOT);
        assert(parts[k].contains(DOT));
    }
}

proof fn segments_hold_no_dot(path: Seq<u8>)
    requires
        !path.contains(DOT),
    ensures
        forall|i: int|
            0 <= i < segments(path).len() ==> !(#[trigger] segments(path)[i]).contains(DOT),
    decreases path.len(),
{
    if path.len() > 0 {
        let init = path.drop_last();
        let before = segments(init);
        assert forall|k: int| 0 <= k < init.len() implies init[k] != DOT by {
            assert(path[k] == init[k]);
        }
        segments_hold_no_dot(init);
        segments_nonempty(init);
        assert(path[path.len() - 1] != DOT);
        let parts = segments(path);
        assert forall|i: int| 0 <= i < parts.len() implies !(#[trigger] parts[i]).contains(DOT) by {
            if i < before.len() - 1 {
                assert(parts[i] == before[i]);
            } else if parts[i].contains(DOT) {
                let k = choose|k: int| 0 <= k < parts[i].len() && parts[i][k] == DOT;
                assert(!before.last().contains(DOT));
                if i == before.len() - 1 && k < before.last().len() {
                    assert(before.last()[k] == DOT);
                }
            }
        }
    }
}

/// Whether the two bytes of `path` at `i` are dots that stand alone between separators or ends.
pub open spec fn parent_dir_at(path: Seq<u8>, i: int) -> bool {
    &&& 0 <= i
    &&& i + 2 <= path.len()
    &&& path[i] == 0x2e
    &&& path[i + 1] == 0x2e
    &&& i > 0 ==> path[i - 1] == 0x2f
    &&& i + 2 < path.len() ==> path[i + 2] == 0x2f
}

proof fn last_separator(path: Seq<u8>) -> (k: int)
    requires
        path.contains(SEPARATOR),
    ensures
        0 <= k < path.len(),
        path[k] == SEPARATOR,
        !path.skip(k + 1).contains(SEPARATOR),
    decreases path.len(),
{
    let init = path.drop_last();
    if path.last() == SEPARATOR {
        path.len() - 1
    } else {
        let at = choose|at: int| 0 <= at < path.len() && path[at] == SEPARATOR;
        assert(init[at] == SEPARATOR);
        let k = last_separator(init);
        let tail = path.skip(k + 1);
        if tail.contains(SEPARATOR) {
            let j = choose|j: int| 0 <= j < tail.len() && tail[j] == SEPARATOR;
            assert(j < tail.len() - 1);
            assert(init.skip(k + 1)[j] == SEPARATOR);
        }
        k
    }
}

proof fn unsplit(path: Seq<u8>)
    requires
        !path.contains(SEPARATOR),
    ensures
        segments(path) == seq![path],
    decreases path.len(),
{
    if path.len() == 0 {
        assert(path =~= Seq::empty());
    } else {
        let init = path.drop_last();
        assert forall|k: int| 0 <= k < init.len() implies init[k] != SEPARATOR by {
            assert(path[k] == init[k]);
        }
        unsplit(init);
        assert(path[path.len() - 1] != SEPARATOR);
        assert(init.push(path.last()) =~= path);
        assert(segments(path) =~= seq![path]);
    }
}

proof fn split_at_last(path: Seq<u8>) -> (cut: (Seq<u8>, Seq<u8>))
    requires
        path.contains(SEPARATOR),
    ensures
        path == cut.0.push(SEPARATOR) + cut.1,
        !cut.1.contains(SEPARATOR),
        segments(path) == segments(cut.0).push(cut.1),
{
    let k = last_separator(path);
    let base = path.take(k);
    let tail = path.skip(k + 1);
    assert(path =~= base.push(SEPARATOR) + tail);
    segments_of_joined(base, tail);
    unsplit(tail);
    assert(segments(path) =~= segments(base).push(tail));
    (base, tail)
}

/// A path is taken to lead to a parent directory just where two dots stand alone in it, between
/// separators or the ends of the path.
pub proof fn parent_dir_is_two_lone_dots(path: &UnixPath, res: bool)
    requires
        call_ensures(UnixPath::has_parent_dir, (path,), res),
    ensures
        res <==> exists|i: int| parent_dir_at(path@, i),
        has_parent_dir(path@) <==> exists|i: int| parent_dir_at(path@, i),
{
    lone_dots(path@);
}

/// `..` is a part of a path just where two dots stand alone in it.
pub proof fn lone_dots(path: Seq<u8>)
    ensures
        has_parent_dir(path) <==> exists|i: int| parent_dir_at(path, i),
    decreases path.len(),
{
    if !path.contains(SEPARATOR) {
        unsplit(path);
        if path == parent_dir() {
            assert(parent_dir_at(path, 0));
            assert(segments(path)[0] == parent_dir());
        }
        if exists|i: int| parent_dir_at(path, i) {
            let i = choose|i: int| parent_dir_at(path, i);
            assert(i == 0) by {
                if i > 0 {
                    assert(path[i - 1] == SEPARATOR);
                }
            }
            assert(path.len() == 2) by {
                if path.len() > 2 {
                    assert(path[2] == SEPARATOR);
                }
            }
            assert(path =~= parent_dir());
            assert(segments(path)[0] == parent_dir());
        }
    } else {
        let (base, tail) = split_at_last(path);
        let parts = segments(base);
        let all = segments(path);
        lone_dots(base);
        if has_parent_dir(path) {
            let k = choose|k: int| 0 <= k < all.len() && all[k] == parent_dir();
            if k < parts.len() {
                assert(parts[k] == parent_dir());
                let i = choose|i: int| parent_dir_at(base, i);
                assert(parent_dir_at(path, i));
            } else {
                assert(tail == parent_dir());
                let at = base.len() as int + 1;
                assert(path[at] == tail[0]);
                assert(path[at + 1] == tail[1]);
                assert(parent_dir_at(path, at));
            }
        }
        if exists|i: int| parent_dir_at(path, i) {
            let i = choose|i: int| parent_dir_at(path, i);
            if i + 2 <= base.len() {
                assert(parent_dir_at(base, i));
                let k = choose|k: int| 0 <= k < parts.len() && parts[k] == parent_dir();
                assert(all[k] == parent_dir());
            } else {
                assert(path[base.len() as int] == SEPARATOR);
                assert(i >= base.len() + 1);
                if i > base.len() + 1 {
                    assert(tail[i - 1 - base.len() - 1] == SEPARATOR);
                }
                assert(tail[0] == path[i]);
                assert(tail[1] == path[i + 1]);
                if tail.len() > 2 {
                    assert(tail[2] == path[i + 2]);
                }
                assert(tail =~= parent_dir());
                assert(all[parts.len() as int] == parent_dir());
            }
        }
    }
}

proof fn last_name_pushed(parts: Seq<Seq<u8>>, part: Seq<u8>)
    ensures
        last_name(parts.push(part)) == if names_something(part) {
            Some(part)
        } else {
            last_name(parts)
        },
{
    assert(parts.push(part).drop_last() =~= parts);
}

proof fn segments_of_file(dir: Seq<u8>, name: Seq<u8>)
    requires
        !name.contains(SEPARATOR),
    ensures
        segments(dir.push(SEPARATOR) + name) == segments(dir).push(name),
        segments(name) == Seq::<Seq<u8>>::empty().push(name),
{
    segments_of_joined(dir, name);
    unsplit(name);
    assert(segments(dir.push(SEPARATOR) + name) =~= segments(dir).push(name));
    assert(segments(name) =~= Seq::<Seq<u8>>::empty().push(name));
}

proof fn after_last_dot(stem: Seq<u8>, ext: Seq<u8>)
    requires
        stem.len() > 0,
        !ext.contains(DOT),
    ensures
        name_extension(stem.push(DOT) + ext) == Some(ext),
    decreases ext.len(),
{
    let name = stem.push(DOT) + ext;
    if ext.len() == 0 {
        assert(name =~= stem.push(DOT));
        assert(ext =~= Seq::empty());
    } else {
        let init = ext.drop_last();
        assert forall|k: int| 0 <= k < init.len() implies init[k] != DOT by {
            assert(ext[k] == init[k]);
        }
        assert(ext[ext.len() - 1] != DOT);
        after_last_dot(stem, init);
        assert(name.drop_last() =~= stem.push(DOT) + init);
        assert(init.push(ext.last()) =~= ext);
    }
}

proof fn no_later_dot(name: Seq<u8>)
    requires
        forall|k: int| 0 < k < name.len() ==> name[k] != DOT,
    ensures
        name_extension(name) is None,
    decreases name.len(),
{
    if name.len() > 1 {
        let init = name.drop_last();
        assert forall|k: int| 0 < k < init.len() implies init[k] != DOT by {
            assert(name[k] == init[k]);
        }
        no_later_dot(init);
    }
}

/// The extension of a file is what follows the last dot of its name, whatever directory the file
/// is in, unless nothing comes before that dot.
pub proof fn extension_follows_last_dot(dir: Seq<u8>, stem: Seq<u8>, ext: Seq<u8>)
    requires
        stem.len() > 0,
        !stem.contains(0x2f),
        !ext.contains(0x2f),
        !ext.contains(0x2e),
        !(stem == seq![0x2eu8] && ext.len() == 0),
    ensures
        extension(stem + seq![0x2eu8] + ext) == Some(ext),
        extension(dir + seq![0x2fu8] + stem + seq![0x2eu8] + ext) == Some(ext),
{
    let name = stem.push(DOT) + ext;
    assert(stem + seq![0x2eu8] + ext =~= name);
    assert(dir + seq![0x2fu8] + stem + seq![0x2eu8] + ext =~= dir.push(SEPARATOR) + name);
    assert forall|k: int| 0 <= k < name.len() implies name[k] != SEPARATOR by {
        if k < stem.len() {
            assert(stem[k] == name[k]);
        } else if k > stem.len() {
            assert(ext[k - stem.len() - 1] == name[k]);
        }
    }
    assert(name != parent_dir()) by {
        if name == parent_dir() {
            assert(name.len() == 2);
            if ext.len() == 1 {
                assert(ext[0] == name[1 + stem.len() as int]);
            }
            assert(stem[0] == name[0]);
            assert(stem =~= seq![0x2eu8]);
        }
    }
    segments_of_file(dir, name);
    last_name_pushed(segments(dir), name);
    last_name_pushed(Seq::empty(), name);
    after_last_dot(stem, ext);
}

/// A file whose name has no dot after its first byte has no extension, and neither has `..`.
pub proof fn name_without_later_dot_has_no_extension(dir: Seq<u8>, name: Seq<u8>)
    requires
        name.len() > 0,
        !name.contains(0x2f),
        name != seq![0x2eu8],
        name == seq![0x2eu8, 0x2eu8] || forall|k: int| 0 < k < name.len() ==> name[k] != 0x2e,
    ensures
        extension(name) is None,
        extension(dir + seq![0x2fu8] + name) is None,
{
    assert(dir + seq![0x2fu8] + name =~= dir.push(SEPARATOR) + name);
    segments_of_file(dir, name);
    last_name_pushed(segments(dir), name);
    last_name_pushed(Seq::empty(), name);
    if name != seq![0x2eu8, 0x2eu8] {
        no_later_dot(name);
    }
}

/// Separators at the end of a path, and `.` as its last part, do not change its extension; a path
/// of nothing else has none.
pub proof fn extension_ignores_what_names_nothing(path: Seq<u8>)
    ensures
        extension(path + seq![0x2fu8]) == extension(path),
        extension(path + seq![0x2fu8, 0x2eu8]) == extension(path),
        extension(Seq::empty()) is None,
        extension(seq![0x2eu8]) is None,
{
    let none = Seq::<u8>::empty();
    let dot = seq![DOT];
    assert(path + seq![0x2fu8] =~= path.push(SEPARATOR) + none);
    assert(path + seq![0x2fu8, 0x2eu8] =~= path.push(SEPARATOR) + dot);
    segments_of_file(path, none);
    segments_of_file(path, dot);
    last_name_pushed(segments(path), none);
    last_name_pushed(segments(path), dot);
    last_name_pushed(Seq::empty(), none);
    last_name_pushed(Seq::empty(), dot);
    assert(last_name(Seq::<Seq<u8>>::empty()) is None);
}

/// A file is taken to have an extension just where that is the one of its path, byte for byte.
pub proof fn extensions_are_compared_as_they_are(path: &UnixPath, ext: &str, res: bool)
    requires
        call_ensures(UnixPath::has_extension, (path, ext), res),
    ensures
        res <==> extension(path@) == Some(encode_utf8(ext@)),
{
}

/// An absolute path is taken as it is. Any other path comes after the directory, with one
/// separator between them where the directory does not end with one.
pub proof fn paths_are_taken_from_a_directory(base: &UnixPath, path: &UnixPath, res: UnixPath)
    requires
        call_ensures(UnixPath::join, (base, path), res),
    ensures
        path@.len() > 0 && path@[0] == 0x2f ==> res@ == path@,
        base@.len() == 0 ==> res@ == path@,
        base@.len() > 0 && (path@.len() == 0 || path@[0] != 0x2f) ==> {
            let between: int = if base@[base@.len() - 1] == 0x2f {
                0
            } else {
                1
            };
            &&& res@.len() == base@.len() + between + path@.len()
            &&& forall|i: int| 0 <= i < base@.len() ==> #[trigger] res@[i] == base@[i]
            &&& forall|i: int|
                0 <= i < path@.len() ==> #[trigger] path@[i] == res@[base@.len() + between + i]
            &&& between == 1 ==> res@[base@.len() as int] == 0x2f
        },
{
}

/// The text that stands for any bytes: what the bytes encode where they are UTF-8, and with
/// replacement characters for what is not.
pub uninterp spec fn lossy_text(bytes: Seq<u8>) -> Seq<char>;

/// `String::from_utf8_lossy`: the result depends on the bytes alone, and is what they encode
/// where they are valid UTF-8. Which characters replace invalid bytes is not stated.
#[verifier::external_body]
fn from_utf8_lossy(bytes: &[u8]) -> (res: String)
    ensures
        res@ == lossy_text(bytes@),
        valid_utf8(bytes@) ==> res@ == decode_utf8(bytes@),
{
    String::from_utf8_lossy(bytes).into_owned()
}

/// The parts of `path`, in order.
fn split(path: &Vec<u8>) -> (res: Vec<Vec<u8>>)
    ensures
        res@.len() == segments(path@).len(),
        forall|i: int| 0 <= i < res@.len() ==> (#[trigger] res@[i])@ == segments(path@)[i],
{
    let mut done: Vec<Vec<u8>> = Vec::new();
    let mut current: Vec<u8> = Vec::new();
    let mut i: usize = 0;
    proof {
        assert(path@.take(0) =~= Seq::empty());
    }
    while i < path.len()
        invariant
            i <= path@.len(),
            done@.len() + 1 == segments(path@.take(i as int)).len(),
            current@ == segments(path@.take(i as int)).last(),
            forall|k: int|
                0 <= k < done@.len() ==> (#[trigger] done@[k])@ == segments(path@.take(i as int))[k],
        decreases path@.len() - i,
    {
        let b = path[i];
        proof {
            assert(path@.take(i + 1).drop_last() =~= path@.take(i as int));
        }
        if b == SEPARATOR {
            done.push(current);
            current = Vec::new();
        } else {
            current.push(b);
        }
        i = i + 1;
    }
    proof {
        assert(path@.take(path@.len() as int) =~= path@);
    }
    done.push(current);
    done
}

/// The position in `name` at which its extension starts, if it has one.
fn extension_start(name: &Vec<u8>) -> (res: Option<usize>)
    ensures
        match res {
            Some(at) => at <= name@.len() && name_extension(name@) == Some(name@.skip(at as int)),
            None => name_extension(name@) is None,
        },
{
    let mut at: Option<usize> = None;
    let mut i: usize = 0;
    while i < name.len()
        invariant
            i <= name@.len(),
            match at {
                Some(k) => k <= i && name_extension(name@.take(i as int)) == Some(
                    name@.subrange(k as int, i as int),
                ),
                None => name_extension(name@.take(i as int)) is None,
            },
        decreases name@.len() - i,
    {
        let ghost longer = name@.take(i + 1);
        proof {
            assert(longer.drop_last() =~= name@.take(i as int));
            assert(longer.last() == name@[i as int]);
        }
        if i > 0 && name[i] == DOT {
            at = Some(i + 1);
            assert(name@.subrange(i + 1, i + 1) =~= Seq::empty());
        } else {
            proof {
                if at is Some {
                    let k = at->0 as int;
                    assert(name@.subrange(k, i + 1) =~= name@.subrange(k, i as int).push(
                        name@[i as int],
                    ));
                }
            }
        }
        i = i + 1;
    }
    proof {
        assert(name@.take(name@.len() as int) =~= name@);
        if at is Some {
            assert(name@.subrange(at->0 as int, name@.len() as int) =~= name@.skip(at->0 as int));
        }
    }
    at
}

impl UnixPath {
    /// The path that a text names.
    pub fn new(text: &str) -> (res: UnixPath)
        ensures
            res@ == encode_utf8(text@),
    {
        UnixPath { bytes: text.as_bytes_vec() }
    }

    /// Whether `..` is a part of the path.
    pub fn has_parent_dir(&self) -> (res: bool)
        ensures
            res == has_parent_dir(self@),
    {
        let parts = split(&self.bytes);
        let mut i: usize = 0;
        while i < parts.len()
            invariant
                i <= parts@.len(),
                parts@.len() == segments(self@).len(),
                forall|k: int|
                    0 <= k < parts@.len() ==> (#[trigger] parts@[k])@ == segments(self@)[k],
                forall|k: int| 0 <= k < i ==> segments(self@)[k] != parent_dir(),
            decreases parts@.len() - i,
        {
            let part = &parts[i];
            if part.len() == 2 && part[0] == DOT && part[1] == DOT {
                assert(part@ =~= parent_dir());
                assert(segments(self@)[i as int] == parent_dir());
                return true;
            }
            i = i + 1;
        }
        false
    }

    /// Whether the file that the path names has the extension `ext`.
    pub fn has_extension(&self, ext: &str) -> (res: bool)
        ensures
            res == has_extension(self@, ext@),
    {
        let mut parts = split(&self.bytes);
        let ghost all = segments(self@);
        proof {
            assert(all.take(all.len() as int) =~= all);
        }
        while parts.len() > 0
            invariant
                all == segments(self@),
                parts@.len() <= all.len(),
                forall|k: int| 0 <= k < parts@.len() ==> (#[trigger] parts@[k])@ == all[k],
                last_name(all) == last_name(all.take(parts@.len() as int)),
            decreases parts@.len(),
        {
            let last = parts.len() - 1;
            let part = &parts[last];
            proof {
                assert(all.take(parts@.len() as int).drop_last() =~= all.take(last as int));
            }
            if part.len() == 0 || (part.len() == 1 && part[0] == DOT) {
                proof {
                    if part@.len() == 1 {
                        assert(part@ =~= seq![DOT]);
                    }
                }
                parts.pop();
            } else if part.len() == 2 && part[0] == DOT && part[1] == DOT {
                assert(part@ =~= parent_dir());
                return false;
            } else {
                return match extension_start(part) {
                    Some(at) => same_bytes(
                        vstd::slice::slice_subrange(part.as_slice(), at, part.len()),
                        ext.as_bytes(),
                    ),
                    None => false,
                };
            }
        }
        false
    }

    /// Where `path` lies when it is taken from this directory.
    pub fn join(&self, path: &UnixPath) -> (res: UnixPath)
        ensures
            res@ == joined(self@, path@),
    {
        let base = &self.bytes;
        let mut bytes: Vec<u8> = Vec::new();
        if base.len() > 0 && !(path.bytes.len() > 0 && path.bytes[0] == SEPARATOR) {
            bytes.extend_from_slice(base.as_slice());
            if base[base.len() - 1] != SEPARATOR {
                bytes.push(SEPARATOR);
            }
        }
        bytes.extend_from_slice(path.bytes.as_slice());
        proof {
            assert(bytes@ =~= joined(self@, path@));
        }
        UnixPath { bytes }
    }

    /// The path as a text for people to read.
    pub fn display(&self) -> (res: String)
        ensures
            res@ == lossy_text(self@),
            valid_utf8(self@) ==> res@ == decode_utf8(self@),
    {
        from_utf8_lossy(self.bytes.as_slice())
    }
}

/// A path that a text names shows as that text again.
pub proof fn named_paths_show_as_their_names(text: &str, path: UnixPath, shown: String)
    requires
        call_ensures(UnixPath::new, (text,), path),
        call_ensures(UnixPath::display, (&path,), shown),
    ensures
        path@ == encode_utf8(text@),
        shown@ == text@,
{
    encode_utf8_valid_utf8(text@);
    encode_utf8_decode_utf8(text@);
}

} // verus!
