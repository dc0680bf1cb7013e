//! Slash-separated paths as texts.
use vstd::prelude::*;
use vstd::string::*;

use crate::text;

verus! {

broadcast use vstd::string::group_string_axioms;

/// Whether a path begins at the root.
pub open spec fn is_absolute(path: Seq<char>) -> bool {
    path.len() > 0 && path[0] == '/'
}

/// `child` below `base`; an absolute child stands for itself.
pub open spec fn below(base: Seq<char>, child: Seq<char>) -> Seq<char> {
    if is_absolute(child) || base.len() == 0 {
        child
    } else if base.last() == '/' {
        base + child
    } else {
        base.push('/') + child
    }
}

/// Whether a component stands for something: it is neither empty nor the directory itself.
pub open spec fn is_component(part: Seq<char>) -> bool {
    part.len() > 0 && part != seq!['.']
}

/// The last component of a path, unless it leads to a parent directory.
pub open spec fn file_name_of(path: Seq<char>) -> Option<Seq<char>> {
    let parts = text::pieces(path, '/').filter(|part: Seq<char>| is_component(part));
    if parts.len() == 0 || parts.last() == seq!['.', '.'] {
        None
    } else {
        Some(parts.last())
    }
}

/// Whether a path begins at the root.
pub fn is_absolute_path(path: &str) -> (res: bool)
    ensures
        res == is_absolute(path@),
{
    let chars = text::to_chars(path);
    chars.len() > 0 && chars[0] == '/'
}

/// `child` below `base`; an absolute child stands for itself.
pub fn join(base: &str, child: &str) -> (res: String)
    ensures
        res@ == below(base@, child@),
{
    let chars = text::to_chars(base);
    if is_absolute_path(child) || chars.len() == 0 {
        return child.to_owned();
    }
    let mut res = base.to_owned();
    if chars[chars.len() - 1] != '/' {
        res.push('/');
    }
    res.push_str(child);
    res
}

/// The last component of a path, unless it leads to a parent directory.
pub fn file_name(path: &str) -> (res: Option<String>)
    ensures
        text::opt_view(res) == file_name_of(path@),
{
    let mut parts = text::split_at_char(path, '/');
    let ghost all = text::pieces(path@, '/');
    let ghost wanted = |part: Seq<char>| is_component(part);
    proof {
        assert(all.take(all.len() as int) =~= all);
        assert(text::views(parts@).len() == parts@.len());
        assert(all.subrange(parts@.len() as int, all.len() as int) =~= Seq::empty());
    }
    while parts.len() > 0
        invariant
            parts@.len() <= all.len(),
            text::views(parts@) =~= all.take(parts@.len() as int),
            wanted == (|part: Seq<char>| is_component(part)),
            all.filter(wanted) == all.take(parts@.len() as int).filter(wanted),
            all == text::pieces(path@, '/'),
        decreases parts@.len(),
    {
        let ghost before = all.take(parts@.len() as int);
        let ghost held = parts@;
        let part = parts.pop().unwrap();
        proof {
            assert(before.last() == text::views(held).last());
            assert(part@ == before.last());
            assert(before.drop_last() =~= all.take(parts@.len() as int));
            assert(text::views(parts@) =~= text::views(held).drop_last());
            reveal(Seq::filter);
            assert(before.filter(wanted) == if wanted(before.last()) {
                before.drop_last().filter(wanted).push(before.last())
            } else {
                before.drop_last().filter(wanted)
            });
        }
        let chars = text::to_chars(part.as_str());
        proof {
            if chars@.len() == 1 {
                assert(chars@ =~= seq![chars@[0]]);
            }
            if chars@.len() == 2 {
                assert(chars@ =~= seq![chars@[0], chars@[1]]);
            }
            assert(part@ == seq!['.'] ==> chars@[0] == '.');
            assert(part@ == seq!['.', '.'] ==> chars@[0] == '.' && chars@[1] == '.');
        }
        let empty = chars.len() == 0;
        let here = chars.len() == 1 && chars[0] == '.';
        if !empty && !here {
            let parent = chars.len() == 2 && chars[0] == '.' && chars[1] == '.';
            if parent {
                return None;
            }
            return Some(part);
        }
    }
    proof {
        assert(all.take(0) =~= Seq::empty());
        reveal(Seq::filter);
    }
    None
}

/// A path without separators at its end that stand for nothing, and without steps there to the
/// directory itself.
pub open spec fn without_tail(path: Seq<char>) -> Seq<char>
    decreases path.len(),
{
    if path.len() > 1 && path.last() == '/' {
        without_tail(path.drop_last())
    } else if path.len() > 1 && path.last() == '.' && path[path.len() - 2] == '/' {
        without_tail(path.drop_last())
    } else {
        path
    }
}

/// A path up to its last separator, with it.
pub open spec fn up_to_separator(path: Seq<char>) -> Seq<char>
    decreases path.len(),
{
    if path.len() == 0 || path.last() == '/' {
        path
    } else {
        up_to_separator(path.drop_last())
    }
}

/// The directory that a path leads into, where there is one: a path to nothing and the root are in
/// none.
pub open spec fn parent_of(path: Seq<char>) -> Option<Seq<char>> {
    let own = without_tail(path);
    if own.len() == 0 || own == seq!['/'] {
        None
    } else {
        Some(without_tail(up_to_separator(own)))
    }
}

/// What is left of a path is no longer than the path.
pub proof fn lemma_path_cuts(path: Seq<char>)
    ensures
        without_tail(path).len() <= path.len(),
        up_to_separator(path).len() <= path.len(),
        path.len() > 0 && path.last() != '/' ==> up_to_separator(path).len() < path.len(),
    decreases path.len(),
{
    if path.len() > 0 {
        lemma_path_cuts(path.drop_last());
    }
}

/// A path that ends in a separator behind something else has it cut off.
proof fn lemma_without_tail_end(path: Seq<char>)
    ensures
        without_tail(path).len() > 1 ==> without_tail(path).last() != '/',
    decreases path.len(),
{
    if path.len() > 1 {
        lemma_without_tail_end(path.drop_last());
    }
}

/// The directory that a path leads into has a shorter path.
pub proof fn lemma_parent_is_shorter(path: Seq<char>)
    ensures
        parent_of(path) matches Some(parent) ==> parent.len() < path.len(),
{
    let own = without_tail(path);
    lemma_path_cuts(path);
    lemma_path_cuts(own);
    lemma_without_tail_end(path);
    if own.len() == 1 && own[0] == '/' {
        assert(own =~= seq!['/']);
    }
    lemma_path_cuts(up_to_separator(own));
}

fn cut_tail(chars: &mut Vec<char>)
    ensures
        final(chars)@ == without_tail(old(chars)@),
{
    while chars.len() > 1 && (chars[chars.len() - 1] == '/' || (chars[chars.len() - 1] == '.'
        && chars[chars.len() - 2] == '/'))
        invariant
            without_tail(chars@) == without_tail(old(chars)@),
        decreases chars.len(),
    {
        let ghost before = chars@;
        chars.pop();
        proof {
            assert(chars@ =~= before.drop_last());
        }
    }
}

/// The directory that a path leads into, where there is one.
pub fn parent(path: &str) -> (res: Option<String>)
    ensures
        text::opt_view(res) == parent_of(path@),
{
    let mut chars = text::to_chars(path);
    cut_tail(&mut chars);
    let ghost own = chars@;
    proof {
        if own.len() == 1 {
            assert(own =~= seq![own[0]]);
        }
    }
    if chars.len() == 0 || (chars.len() == 1 && chars[0] == '/') {
        return None;
    }
    while chars.len() > 0 && chars[chars.len() - 1] != '/'
        invariant
            up_to_separator(chars@) == up_to_separator(own),
        decreases chars.len(),
    {
        let ghost before = chars@;
        chars.pop();
        proof {
            assert(chars@ =~= before.drop_last());
        }
    }
    cut_tail(&mut chars);
    Some(text::string_of(&chars))
}

/// The components of a path that stand for something.
pub open spec fn components_of(path: Seq<char>) -> Seq<Seq<char>> {
    text::pieces(path, '/').filter(|part: Seq<char>| is_component(part))
}

/// A path with single separators and without steps to the directory itself, but for one at its
/// beginning.
pub open spec fn normalized(path: Seq<char>) -> Seq<char> {
    let components = components_of(path);
    if is_absolute(path) {
        "/"@ + text::joined(components, "/"@)
    } else if text::pieces(path, '/')[0] == seq!['.'] {
        text::joined(seq![seq!['.']] + components, "/"@)
    } else {
        text::joined(components, "/"@)
    }
}

/// The components of a path that stand for something.
pub fn components(path: &str) -> (res: Vec<String>)
    ensures
        text::views(res@) == components_of(path@),
{
    let parts = text::split_at_char(path, '/');
    let ghost all = text::pieces(path@, '/');
    let ghost wanted = |part: Seq<char>| is_component(part);
    let mut kept: Vec<String> = Vec::new();
    proof {
        reveal(Seq::filter);
        assert(all.take(0) =~= Seq::empty());
        assert(text::views(kept@) =~= all.take(0).filter(wanted));
    }
    let mut i: usize = 0;
    while i < parts.len()
        invariant
            i <= parts.len(),
            all == text::views(parts@),
            wanted == (|part: Seq<char>| is_component(part)),
            text::views(kept@) == all.take(i as int).filter(wanted),
        decreases parts.len() - i,
    {
        let chars = text::to_chars(parts[i].as_str());
        proof {
            assert(all[i as int] == parts@[i as int]@);
            assert(all.take(i + 1).drop_last() =~= all.take(i as int));
            assert(all.take(i + 1).last() == all[i as int]);
            reveal(Seq::filter);
            if chars@.len() == 1 {
                assert(chars@ =~= seq![chars@[0]]);
            }
            assert(chars@ == seq!['.'] ==> chars@[0] == '.');
        }
        if chars.len() > 0 && !(chars.len() == 1 && chars[0] == '.') {
            text::push_line(&mut kept, parts[i].clone());
        }
        i += 1;
    }
    proof {
        assert(all.take(i as int) =~= all);
    }
    kept
}

/// A path with single separators and without steps to the directory itself, but for one at its
/// beginning.
pub fn normalize(path: &str) -> (res: String)
    ensures
        res@ == normalized(path@),
{
    let parts = text::split_at_char(path, '/');
    let absolute = is_absolute_path(path);
    proof {
        text::lemma_pieces_nonempty(path@, '/');
        assert(text::pieces(path@, '/')[0] == parts@[0]@);
    }
    let first = text::to_chars(parts[0].as_str());
    proof {
        if first@.len() == 1 {
            assert(first@ =~= seq![first@[0]]);
        }
        assert(first@ == seq!['.'] ==> first@[0] == '.');
    }
    let here = first.len() == 1 && first[0] == '.';
    let mut kept: Vec<String> = Vec::new();
    if !absolute && here {
        text::push_line(&mut kept, ".".to_owned());
        proof {
            reveal_strlit(".");
            assert("."@ =~= seq!['.']);
        }
    }
    let ghost head: Seq<Seq<char>> = if !absolute && here {
        seq![seq!['.']]
    } else {
        Seq::empty()
    };
    proof {
        assert(text::views(kept@) =~= head);
    }
    let mut rest = components(path);
    let ghost tail = rest@;
    kept.append(&mut rest);
    proof {
        assert(text::views(kept@) =~= head + text::views(tail));
        assert(Seq::<Seq<char>>::empty() + components_of(path@) =~= components_of(path@));
    }
    let joined = text::join(&kept, "/");
    if absolute {
        text::concat2("/", joined.as_str())
    } else {
        joined
    }
}

/// The order of lists of components: by the first in which they differ, a list before those that
/// go on from it.
pub open spec fn components_before(a: Seq<Seq<char>>, b: Seq<Seq<char>>) -> bool
    decreases a.len(),
{
    if b.len() == 0 {
        false
    } else if a.len() == 0 {
        true
    } else if a[0] == b[0] {
        components_before(a.drop_first(), b.drop_first())
    } else {
        text::text_before(a[0], b[0])
    }
}

/// The order of paths below one directory: component by component.
pub open spec fn path_before(a: Seq<char>, b: Seq<char>) -> bool {
    components_before(components_of(a), components_of(b))
}

/// The order of components is strict and total.
pub proof fn lemma_component_order(a: Seq<Seq<char>>, b: Seq<Seq<char>>)
    ensures
        !(components_before(a, b) && components_before(b, a)),
        components_before(a, b) || components_before(b, a) || a == b,
    decreases a.len(),
{
    if a.len() > 0 && b.len() > 0 {
        text::lemma_text_order(a[0], b[0]);
        if a[0] == b[0] {
            lemma_component_order(a.drop_first(), b.drop_first());
            if a.drop_first() == b.drop_first() {
                assert(a =~= seq![a[0]] + a.drop_first());
                assert(b =~= seq![b[0]] + b.drop_first());
            }
        }
    }
    if a.len() == 0 && b.len() == 0 {
        assert(a =~= b);
    }
}

/// The order of components is transitive.
pub proof fn lemma_component_order_transitive(
    a: Seq<Seq<char>>,
    b: Seq<Seq<char>>,
    c: Seq<Seq<char>>,
)
    requires
        components_before(a, b),
        components_before(b, c),
    ensures
        components_before(a, c),
    decreases a.len(),
{
    if a.len() > 0 && b.len() > 0 && c.len() > 0 {
        text::lemma_text_order(a[0], b[0]);
        text::lemma_text_order(b[0], c[0]);
        text::lemma_text_order(a[0], c[0]);
        if a[0] == b[0] && b[0] == c[0] {
            lemma_component_order_transitive(a.drop_first(), b.drop_first(), c.drop_first());
        } else if a[0] != b[0] && b[0] != c[0] {
            text::lemma_text_order_transitive(a[0], b[0], c[0]);
        }
    }
}

/// Whether a path comes before another below one directory.
pub fn comes_before(a: &str, b: &str) -> (res: bool)
    ensures
        res == path_before(a@, b@),
{
    let left = components(a);
    let right = components(b);
    let ghost all_left = text::views(left@);
    let ghost all_right = text::views(right@);
    let mut i: usize = 0;
    proof {
        assert(all_left.skip(0) =~= all_left);
        assert(all_right.skip(0) =~= all_right);
    }
    while i < left.len() && i < right.len()
        invariant
            i <= left.len(),
            i <= right.len(),
            all_left == text::views(left@),
            all_right == text::views(right@),
            path_before(a@, b@) == components_before(
                all_left.skip(i as int),
                all_right.skip(i as int),
            ),
        decreases left.len() - i,
    {
        proof {
            assert(all_left.skip(i as int)[0] == left@[i as int]@);
            assert(all_right.skip(i as int)[0] == right@[i as int]@);
            assert(all_left.skip(i as int).drop_first() =~= all_left.skip(i + 1));
            assert(all_right.skip(i as int).drop_first() =~= all_right.skip(i + 1));
        }
        if !text::same_text(left[i].as_str(), right[i].as_str()) {
            return text::comes_before(left[i].as_str(), right[i].as_str());
        }
        i += 1;
    }
    i < right.len()
}

/// A path below a directory begins with the directory and ends with the path, with one separator
/// between them; an absolute path is below no directory, and nothing stands before a path below
/// the empty one.
pub proof fn law_paths_are_put_together(base: Seq<char>, child: Seq<char>)
    ensures
        child.len() > 0 && child[0] == '/' ==> below(base, child) == child,
        base.len() == 0 ==> below(base, child) == child,
        base.len() > 0 && base.last() != '/' && (child.len() == 0 || child[0] != '/') ==> below(
            base,
            child,
        ) == base + "/"@ + child,
        base.len() > 0 && base.last() == '/' && (child.len() == 0 || child[0] != '/') ==> below(
            base,
            child,
        ) == base + child,
{
    reveal_strlit("/");
    assert(base.push('/') + child =~= base + "/"@ + child);
}

/// A path is made of the components of its directory and its own: putting a path below a directory
/// puts its components behind those of the directory.
pub proof fn law_components_are_put_together(base: Seq<char>, child: Seq<char>)
    requires
        child.len() == 0 || child[0] != '/',
    ensures
        components_of(below(base, child)) == components_of(base) + components_of(child),
{
    let kept = |part: Seq<char>| is_component(part);
    let empty = Seq::<char>::empty();
    text::law_pieces_end_at_separators(empty, empty, '/');
    lemma_no_component(kept);
    if base.len() == 0 {
        assert(base =~= empty);
        assert(components_of(base) + components_of(child) =~= components_of(child));
    } else {
        let front = if base.last() == '/' {
            base.drop_last()
        } else {
            base
        };
        assert(below(base, child) =~= front + seq!['/'] + child);
        text::law_pieces_end_at_separators(front, child, '/');
        Seq::filter_distributes_over_add(text::pieces(front, '/'), text::pieces(child, '/'), kept);
        if base.last() == '/' {
            assert(base =~= front + seq!['/'] + empty);
            text::law_pieces_end_at_separators(front, empty, '/');
            Seq::filter_distributes_over_add(
                text::pieces(front, '/'),
                text::pieces(empty, '/'),
                kept,
            );
            assert(components_of(base) =~= components_of(front));
        }
        assert(components_of(below(base, child)) =~= components_of(base) + components_of(child));
    }
}

/// The empty text is no component.
proof fn lemma_no_component(kept: spec_fn(Seq<char>) -> bool)
    requires
        kept == (|part: Seq<char>| is_component(part)),
    ensures
        text::pieces(Seq::<char>::empty(), '/').filter(kept) == Seq::<Seq<char>>::empty(),
{
    let parts = text::pieces(Seq::<char>::empty(), '/');
    reveal(Seq::filter);
    assert(parts.len() == 1);
    assert(parts.drop_last() =~= Seq::empty());
    assert(parts.last() == Seq::<char>::empty());
    assert(!kept(parts.last()));
    assert(parts.drop_last().filter(kept) =~= Seq::empty());
}

/// A file that is put below a directory is found under its own name, wherever the directory is.
pub proof fn law_files_have_their_own_name(base: Seq<char>, name: Seq<char>)
    requires
        name.len() > 0,
        !name.contains('/'),
        name != seq!['.'],
        name != seq!['.', '.'],
    ensures
        file_name_of(below(base, name)) == Some(name),
{
    assert(name[0] != '/') by {
        if name[0] == '/' {
            assert(name.contains('/'));
        }
    }
    law_components_are_put_together(base, name);
    text::law_pieces_end_at_separators(name, Seq::empty(), '/');
    let parts = text::pieces(name, '/');
    let kept = |part: Seq<char>| is_component(part);
    assert(components_of(name) =~= seq![name]) by {
        reveal(Seq::filter);
        assert(parts =~= seq![name]);
        assert(parts.drop_last() =~= Seq::empty());
        assert(parts.drop_last().filter(kept) =~= Seq::empty());
        assert(parts.last() == name);
    }
    assert((components_of(base) + seq![name]).last() == name);
}

/// The directory of a file that is put below a directory is that directory.
pub proof fn law_files_are_in_their_directory(base: Seq<char>, name: Seq<char>)
    requires
        base.len() > 0,
        base.last() != '/',
        base.len() > 1 ==> !(base.last() == '.' && base[base.len() - 2] == '/'),
        name.len() > 0,
        !name.contains('/'),
        name != seq!['.'],
    ensures
        parent_of(below(base, name)) == Some(base),
{
    assert forall|k: int| 0 <= k < name.len() implies #[trigger] name[k] != '/' by {
        if name[k] == '/' {
            assert(name.contains('/'));
        }
    }
    let path = below(base, name);
    let end = base.push('/');
    assert(path =~= end + name);
    assert(path.last() == name.last());
    if name.len() == 1 {
        assert(path[path.len() - 2] == '/');
        if name[0] == '.' {
            assert(name =~= seq!['.']);
        }
    } else {
        assert(path[path.len() - 2] == name[name.len() - 2]);
    }
    assert(without_tail(path) == path);
    lemma_up_to(end, name);
    assert(end.drop_last() =~= base);
    assert(without_tail(end) == without_tail(base));
}

proof fn lemma_up_to(end: Seq<char>, name: Seq<char>)
    requires
        end.len() > 0,
        end.last() == '/',
        forall|k: int| 0 <= k < name.len() ==> #[trigger] name[k] != '/',
    ensures
        up_to_separator(end + name) == end,
    decreases name.len(),
{
    if name.len() > 0 {
        let rest = name.drop_last();
        assert forall|k: int| 0 <= k < rest.len() implies #[trigger] rest[k] != '/' by {
            assert(rest[k] == name[k]);
        }
        lemma_up_to(end, rest);
        assert((end + name).drop_last() =~= end + rest);
        assert((end + name).last() == name[name.len() - 1]);
    } else {
        assert(end + name =~= end);
    }
}

} // verus!
