//! The workspace file tree: paths split into components, nodes inserted
//! along them, children ordered for display, and the files listed in path order.

use vstd::prelude::*;
use crate::text::{split_on, split_chars};
use crate::strs::{chars_of, string_from_chars};
use crate::sorting::{SortKey, SortKeyExec, keys_view, is_stable_order, stable_order};
use crate::text::{join_with, join_prefix};

verus! {

/// A path component that `Path::components` keeps: not empty and not `.`.
pub open spec fn is_normal_piece(c: Seq<char>) -> bool {
    c.len() > 0 && c != seq!['.']
}

pub open spec fn normal_pieces(ps: Seq<Seq<char>>) -> Seq<Seq<char>> {
    ps.filter(|c: Seq<char>| is_normal_piece(c))
}

/// The components of a path as `Path::components` yields them (Unix): a
/// leading `/` is the root component, a leading `.` is kept, and otherwise
/// empty pieces and `.` are dropped.
pub open spec fn components(p: Seq<char>) -> Seq<Seq<char>> {
    let pieces = split_on(p, '/');
    if p.len() > 0 && p[0] == '/' {
        seq![seq!['/']] + normal_pieces(pieces.drop_first())
    } else if pieces[0] == seq!['.'] {
        seq![seq!['.']] + normal_pieces(pieces.drop_first())
    } else {
        normal_pieces(pieces)
    }
}

/// `PathBuf::push`: an absolute `name` replaces the path, otherwise it is
/// appended after a `/` unless the path is empty or already ends in one.
pub open spec fn push_path(base: Seq<char>, name: Seq<char>) -> Seq<char> {
    if name.len() > 0 && name[0] == '/' {
        name
    } else if base.len() == 0 {
        name
    } else if base.last() == '/' {
        base + name
    } else {
        base + seq!['/'] + name
    }
}

pub open spec fn chars_view(v: Seq<Vec<char>>) -> Seq<Seq<char>> {
    v.map_values(|p: Vec<char>| p@)
}

/// The pieces from `from` on that are normal components.
fn keep_normal(parts: &Vec<Vec<char>>, from: usize) -> (out: Vec<Vec<char>>)
    requires
        from <= parts@.len(),
    ensures
        chars_view(out@) == normal_pieces(chars_view(parts@).skip(from as int)),
{
    let ghost pv = chars_view(parts@);
    let ghost pred = |c: Seq<char>| is_normal_piece(c);
    let mut out: Vec<Vec<char>> = Vec::new();
    let mut k: usize = from;
    assert(pv.subrange(from as int, from as int) =~= Seq::<Seq<char>>::empty());
    proof {
        reveal(Seq::filter);
        assert(chars_view(out@) =~= pv.subrange(from as int, from as int).filter(pred));
    }
    while k < parts.len()
        invariant
            from <= k <= parts@.len(),
            pv == chars_view(parts@),
            pred == (|c: Seq<char>| is_normal_piece(c)),
            chars_view(out@) == pv.subrange(from as int, k as int).filter(pred),
        decreases parts@.len() - k,
    {
        proof {
            reveal(Seq::filter);
            assert(pv.subrange(from as int, k + 1).drop_last() =~= pv.subrange(from as int, k as int));
            assert(pv.subrange(from as int, k + 1).last() == pv[k as int]);
        }
        let piece = &parts[k];
        let keep = piece.len() > 0 && !(piece.len() == 1 && piece[0] == '.');
        assert(keep == is_normal_piece(pv[k as int])) by {
            if piece.len() == 1 && piece[0] == '.' {
                assert(pv[k as int] =~= seq!['.']);
            }
        }
        if keep {
            out.push(clone_chars(piece));
            assert(chars_view(out@) =~= pv.subrange(from as int, k as int).filter(pred).push(pv[k as int]));
        }
        k = k + 1;
    }
    assert(pv.subrange(from as int, parts@.len() as int) =~= pv.skip(from as int));
    out
}

fn clone_chars(v: &Vec<char>) -> (r: Vec<char>)
    ensures
        r@ == v@,
{
    let mut r: Vec<char> = Vec::new();
    let mut i: usize = 0;
    while i < v.len()
        invariant
            i <= v@.len(),
            r@ == v@.take(i as int),
        decreases v@.len() - i,
    {
        r.push(v[i]);
        i = i + 1;
        assert(r@ =~= v@.take(i as int));
    }
    assert(v@.take(v@.len() as int) =~= v@);
    r
}

/// The components of `path`.
pub fn path_components(path: &str) -> (comps: Vec<Vec<char>>)
    ensures
        chars_view(comps@) == components(path@),
{
    let chars = chars_of(path);
    let parts = split_chars(&chars, '/');
    let ghost pv = chars_view(parts@);
    assert(pv == split_on(path@, '/'));
    proof {
        crate::text::lemma_split_on_nonempty(path@, '/');
    }
    if chars.len() > 0 && chars[0] == '/' {
        let mut comps: Vec<Vec<char>> = Vec::new();
        let mut first: Vec<char> = Vec::new();
        first.push('/');
        comps.push(first);
        let mut rest = keep_normal(&parts, 1);
        let ghost rv = chars_view(rest@);
        comps.append(&mut rest);
        assert(pv.skip(1) =~= pv.drop_first());
        assert(chars_view(comps@) =~= seq![seq!['/']] + rv);
        comps
    } else if parts[0].len() == 1 && parts[0][0] == '.' {
        assert(pv[0] =~= seq!['.']);
        let mut comps: Vec<Vec<char>> = Vec::new();
        let mut first: Vec<char> = Vec::new();
        first.push('.');
        comps.push(first);
        let mut rest = keep_normal(&parts, 1);
        let ghost rv = chars_view(rest@);
        comps.append(&mut rest);
        assert(pv.skip(1) =~= pv.drop_first());
        assert(chars_view(comps@) =~= seq![seq!['.']] + rv);
        comps
    } else {
        assert(pv[0] != seq!['.']) by {
            if pv[0] == seq!['.'] {
                assert(pv[0].len() == 1 && pv[0][0] == '.');
            }
        }
        let comps = keep_normal(&parts, 0);
        assert(pv.skip(0) =~= pv);
        comps
    }
}

/// A node of the file tree; `children` holds indices into the tree's nodes.
#[derive(Debug, Clone)]
pub struct FileNode {
    pub name: String,
    pub path: String,
    pub is_dir: bool,
    pub children: Vec<usize>,
}

/// A node as plain values: name, path, whether it is a directory, children.
pub type NodeView = (Seq<char>, Seq<char>, bool, Seq<usize>);

impl FileNode {
    pub open spec fn view(&self) -> NodeView {
        (self.name@, self.path@, self.is_dir, self.children@)
    }

    pub fn clone_node(&self) -> (r: Self)
        ensures
            r.view() == self.view(),
    {
        let mut children: Vec<usize> = Vec::new();
        let mut i: usize = 0;
        while i < self.children.len()
            invariant
                i <= self.children@.len(),
                children@ == self.children@.take(i as int),
            decreases self.children@.len() - i,
        {
            children.push(self.children[i]);
            i = i + 1;
            assert(children@ =~= self.children@.take(i as int));
        }
        assert(self.children@.take(self.children@.len() as int) =~= self.children@);
        FileNode { name: self.name.clone(), path: self.path.clone(), is_dir: self.is_dir, children }
    }
}

pub open spec fn tree_view(nodes: Seq<FileNode>) -> Seq<NodeView> {
    nodes.map_values(|n: FileNode| n.view())
}

/// Every child index points past its parent and into the tree, so walks
/// from the root end.
pub open spec fn tree_wf(t: Seq<NodeView>) -> bool {
    &&& t.len() >= 1
    &&& forall|n: int, k: int| 0 <= n < t.len() && 0 <= k < t[n].3.len() ==> n < #[trigger] t[n].3[k] < t.len()
}

/// The file tree; node 0 is the root.
#[derive(Debug, Clone)]
pub struct FileTree {
    pub nodes: Vec<FileNode>,
}

/// The first of the listed children whose name is `name`.
pub open spec fn find_named(t: Seq<NodeView>, cs: Seq<usize>, name: Seq<char>) -> Option<usize>
    decreases cs.len(),
{
    if cs.len() == 0 {
        None
    } else if t[cs[0] as int].0 == name {
        Some(cs[0])
    } else {
        find_named(t, cs.drop_first(), name)
    }
}

/// The tree after walking `comps[k..]` down from `cursor` (whose path is
/// `path`): an existing child of the same name is followed, else a new node
/// is appended under the cursor; the last component gets `is_dir`, the ones
/// before it are directories.
pub open spec fn insert_steps(
    t: Seq<NodeView>,
    cursor: int,
    comps: Seq<Seq<char>>,
    k: nat,
    path: Seq<char>,
    is_dir: bool,
) -> Seq<NodeView>
    decreases comps.len() - k,
{
    if k >= comps.len() {
        t
    } else {
        let name = comps[k as int];
        let path2 = push_path(path, name);
        match find_named(t, t[cursor].3, name) {
            Some(c) => insert_steps(t, c as int, comps, k + 1, path2, is_dir),
            None => {
                let node: NodeView = (name, path2, if k + 1 == comps.len() { is_dir } else { true }, Seq::empty());
                let parent = t[cursor];
                let t2 = t.update(cursor, (parent.0, parent.1, parent.2, parent.3.push(t.len() as usize))).push(node);
                insert_steps(t2, t.len() as int, comps, k + 1, path2, is_dir)
            },
        }
    }
}

fn chars_equal(a: &Vec<char>, b: &Vec<char>) -> (r: bool)
    ensures
        r == (a@ == b@),
{
    if a.len() != b.len() {
        return false;
    }
    let mut i: usize = 0;
    while i < a.len()
        invariant
            a@.len() == b@.len(),
            i <= a@.len(),
            a@.take(i as int) == b@.take(i as int),
        decreases a@.len() - i,
    {
        if a[i] != b[i] {
            return false;
        }
        assert(a@.take(i + 1) =~= a@.take(i as int).push(a@[i as int]));
        assert(b@.take(i + 1) =~= b@.take(i as int).push(b@[i as int]));
        i = i + 1;
    }
    assert(a@ =~= a@.take(a@.len() as int));
    assert(b@ =~= b@.take(b@.len() as int));
    true
}

fn push_path_exec(base: &Vec<char>, name: &Vec<char>) -> (r: Vec<char>)
    ensures
        r@ == push_path(base@, name@),
{
    if name.len() > 0 && name[0] == '/' {
        clone_chars(name)
    } else if base.len() == 0 {
        clone_chars(name)
    } else {
        let mut r = clone_chars(base);
        if base[base.len() - 1] != '/' {
            r.push('/');
        }
        let mut tail = clone_chars(name);
        let ghost rv = r@;
        r.append(&mut tail);
        assert(r@ =~= rv + name@);
        assert(base@.last() == base@[base@.len() - 1]);
        r
    }
}

impl FileTree {
    pub open spec fn view(&self) -> Seq<NodeView> {
        tree_view(self.nodes@)
    }

    pub open spec fn wf(&self) -> bool {
        tree_wf(self.view())
    }

    /// A tree holding only the root directory `name`.
    pub fn root(name: String) -> (t: Self)
        ensures
            t.wf(),
            t@ == seq![(name@, Seq::<char>::empty(), true, Seq::<usize>::empty())],
    {
        let mut nodes: Vec<FileNode> = Vec::new();
        nodes.push(FileNode { name, path: String::new(), is_dir: true, children: Vec::new() });
        let t = FileTree { nodes };
        assert(t@ =~= seq![(name@, Seq::<char>::empty(), true, Seq::<usize>::empty())]);
        t
    }

    /// The first child of `parent` named `name`.
    fn find_child(&self, parent: usize, name: &Vec<char>) -> (r: Option<usize>)
        requires
            self.wf(),
            parent < self.nodes@.len(),
        ensures
            r == find_named(self@, self@[parent as int].3, name@),
    {
        let ghost t = self@;
        let children = &self.nodes[parent].children;
        let mut i: usize = 0;
        assert(children@.skip(0) =~= children@);
        while i < children.len()
            invariant
                t == self@,
                tree_wf(t),
                parent < t.len(),
                children@ == t[parent as int].3,
                i <= children@.len(),
                find_named(t, children@, name@) == find_named(t, children@.skip(i as int), name@),
            decreases children@.len() - i,
        {
            let c = children[i];
            assert(children@.skip(i as int)[0] == c);
            assert(c < t.len());
            let node_name = chars_of(self.nodes[c].name.as_str());
            assert(node_name@ == t[c as int].0);
            if chars_equal(&node_name, name) {
                return Some(c);
            }
            assert(children@.skip(i as int).drop_first() =~= children@.skip(i + 1));
            i = i + 1;
        }
        None
    }

    /// Adds the nodes along `relative_path` that are not there yet.
    pub fn insert_node(&mut self, relative_path: &str, is_dir: bool)
        requires
            old(self).wf(),
            old(self).nodes@.len() + components(relative_path@).len() < usize::MAX,
        ensures
            final(self).wf(),
            final(self)@ == insert_steps(old(self)@, 0, components(relative_path@), 0, Seq::empty(), is_dir),
            final(self).nodes@.len() <= old(self).nodes@.len() + components(relative_path@).len(),
    {
        let comps = path_components(relative_path);
        let ghost cv = chars_view(comps@);
        let ghost goal = insert_steps(self@, 0, cv, 0, Seq::empty(), is_dir);
        let ghost start_len = self.nodes@.len();
        let mut cursor: usize = 0;
        let mut current: Vec<char> = Vec::new();
        let mut idx: usize = 0;
        while idx < comps.len()
            invariant
                cv == chars_view(comps@),
                self.wf(),
                cursor < self.nodes@.len(),
                idx <= comps@.len(),
                self.nodes@.len() <= start_len + idx,
                start_len + comps@.len() < usize::MAX,
                goal == insert_steps(self@, cursor as int, cv, idx as nat, current@, is_dir),
            decreases comps@.len() - idx,
        {
            let ghost t = self@;
            let name = &comps[idx];
            assert(cv[idx as int] == name@);
            let next_path = push_path_exec(&current, name);
            let node_is_dir = if idx + 1 == comps.len() { is_dir } else { true };
            let found = self.find_child(cursor, name);
            match found {
                Some(c) => {
                    assert(c < t.len()) by {
                        lemma_find_named_child(t, t[cursor as int].3, name@, cursor as int);
                    }
                    cursor = c;
                },
                None => {
                    let new_idx = self.nodes.len();
                    let mut parent = self.nodes[cursor].clone_node();
                    parent.children.push(new_idx);
                    self.nodes.set(cursor, parent);
                    self.nodes.push(FileNode {
                        name: string_from_chars(name.as_slice()),
                        path: string_from_chars(next_path.as_slice()),
                        is_dir: node_is_dir,
                        children: Vec::new(),
                    });
                    let ghost node: NodeView = (name@, next_path@, node_is_dir, Seq::empty());
                    let ghost p = t[cursor as int];
                    assert(self@ =~= t.update(cursor as int, (p.0, p.1, p.2, p.3.push(t.len() as usize))).push(node));
                    assert forall|n: int, k: int| 0 <= n < self@.len() && 0 <= k < self@[n].3.len() implies n < #[trigger] self@[n].3[k] < self@.len() by {
                        if n < t.len() && n != cursor {
                            assert(self@[n].3 == t[n].3);
                        }
                    }
                    cursor = new_idx;
                },
            }
            current = next_path;
            idx = idx + 1;
        }
    }
}

proof fn lemma_find_named_child(t: Seq<NodeView>, cs: Seq<usize>, name: Seq<char>, parent: int)
    requires
        tree_wf(t),
        0 <= parent < t.len(),
        cs == t[parent].3,
    ensures
        find_named(t, cs, name) matches Some(c) ==> parent < c < t.len(),
{
    lemma_find_named_in(t, cs, name);
    if let Some(c) = find_named(t, cs, name) {
        let k = choose|k: int| 0 <= k < cs.len() && cs[k] == c;
        assert(t[parent].3[k] == c);
    }
}

proof fn lemma_find_named_in(t: Seq<NodeView>, cs: Seq<usize>, name: Seq<char>)
    ensures
        find_named(t, cs, name) matches Some(c) ==> exists|k: int| 0 <= k < cs.len() && cs[k] == c,
    decreases cs.len(),
{
    if cs.len() > 0 && t[cs[0] as int].0 != name {
        lemma_find_named_in(t, cs.drop_first(), name);
        if let Some(c) = find_named(t, cs.drop_first(), name) {
            let k = choose|k: int| 0 <= k < cs.drop_first().len() && cs.drop_first()[k] == c;
            assert(cs[k + 1] == c);
        }
    }
}

/// `c` with ASCII capitals lowered (`char::to_ascii_lowercase`).
pub open spec fn ascii_lower_char(c: char) -> char {
    if 'A' <= c && c <= 'Z' {
        (((c as u8) + 32) as u8) as char
    } else {
        c
    }
}

pub open spec fn ascii_lower(s: Seq<char>) -> Seq<char> {
    s.map_values(|c: char| ascii_lower_char(c))
}

fn ascii_lower_exec(s: &Vec<char>) -> (r: Vec<char>)
    ensures
        r@ == ascii_lower(s@),
{
    let mut r: Vec<char> = Vec::new();
    let mut i: usize = 0;
    while i < s.len()
        invariant
            i <= s@.len(),
            r@ == ascii_lower(s@.take(i as int)),
        decreases s@.len() - i,
    {
        let c = s[i];
        let l = if 'A' <= c && c <= 'Z' { (((c as u8) + 32) as u8) as char } else { c };
        r.push(l);
        i = i + 1;
        assert(r@ =~= ascii_lower(s@.take(i as int)));
    }
    assert(s@.take(s@.len() as int) =~= s@);
    r
}

/// Display order of siblings: directories first, then by name ignoring ASCII case.
pub open spec fn child_key(t: Seq<NodeView>, c: usize) -> SortKey {
    (if t[c as int].2 { 0 } else { 1 }, 0, ascii_lower(t[c as int].0))
}

pub open spec fn child_keys(t: Seq<NodeView>, cs: Seq<usize>) -> Seq<SortKey> {
    cs.map_values(|c: usize| child_key(t, c))
}

/// `out` is the children `cs` in stable display order.
pub open spec fn children_sorted(t: Seq<NodeView>, cs: Seq<usize>, out: Seq<usize>) -> bool {
    exists|p: Seq<usize>|
        #![trigger is_stable_order(child_keys(t, cs), p)]
        is_stable_order(child_keys(t, cs), p) && out.len() == p.len()
            && forall|k: int| 0 <= k < p.len() ==> #[trigger] out[k] == cs[p[k] as int]
}

/// `after` is `before` with the children of every node in display order.
pub open spec fn tree_sorted(before: Seq<NodeView>, after: Seq<NodeView>) -> bool {
    &&& after.len() == before.len()
    &&& forall|n: int| 0 <= n < before.len() ==> {
        &&& (#[trigger] after[n]).0 == before[n].0
        &&& after[n].1 == before[n].1
        &&& after[n].2 == before[n].2
        &&& children_sorted(before, before[n].3, after[n].3)
    }
}

impl FileTree {
    /// The display keys of the children of `n`.
    fn children_keys(&self, n: usize) -> (keys: Vec<SortKeyExec>)
        requires
            self.wf(),
            n < self.nodes@.len(),
        ensures
            keys_view(keys@) == child_keys(self@, self@[n as int].3),
    {
        let ghost t = self@;
        let cs = &self.nodes[n].children;
        let mut keys: Vec<SortKeyExec> = Vec::new();
        let mut k: usize = 0;
        while k < cs.len()
            invariant
                t == self@,
                tree_wf(t),
                n < t.len(),
                cs@ == t[n as int].3,
                k <= cs@.len(),
                keys@.len() == k,
                forall|j: int| 0 <= j < k ==> #[trigger] keys@[j].view() == child_key(t, cs@[j]),
            decreases cs@.len() - k,
        {
            let c = cs[k];
            assert(c < t.len());
            let node = &self.nodes[c];
            let name = chars_of(node.name.as_str());
            keys.push(SortKeyExec { group: if node.is_dir { 0 } else { 1 }, num: 0, text: ascii_lower_exec(&name) });
            k = k + 1;
        }
        assert(keys_view(keys@) =~= child_keys(t, cs@));
        keys
    }

    /// Orders the children of every node for display.
    pub fn sort_recursive(&mut self)
        requires
            old(self).wf(),
        ensures
            final(self).wf(),
            tree_sorted(old(self)@, final(self)@),
    {
        let ghost t0 = self@;
        let mut n: usize = 0;
        while n < self.nodes.len()
            invariant
                self.wf(),
                self@.len() == t0.len(),
                n <= t0.len(),
                forall|m: int| 0 <= m < t0.len() ==> {
                    &&& (#[trigger] self@[m]).0 == t0[m].0
                    &&& self@[m].1 == t0[m].1
                    &&& self@[m].2 == t0[m].2
                },
                forall|m: int| 0 <= m < n ==> children_sorted(t0, t0[m].3, #[trigger] self@[m].3),
                forall|m: int| n <= m < t0.len() ==> #[trigger] self@[m].3 == t0[m].3,
            decreases t0.len() - n,
        {
            let ghost t = self@;
            let keys = self.children_keys(n);
            assert(child_keys(t, t[n as int].3) =~= child_keys(t0, t0[n as int].3));
            let p = stable_order(&keys);
            let mut node = self.nodes[n].clone_node();
            let mut sorted: Vec<usize> = Vec::new();
            let mut k: usize = 0;
            while k < p.len()
                invariant
                    n < t.len(),
                    k <= p@.len(),
                    node.view() == t[n as int],
                    is_stable_order(keys_view(keys@), p@),
                    keys_view(keys@) == child_keys(t, t[n as int].3),
                    sorted@.len() == k,
                    forall|j: int| 0 <= j < k ==> #[trigger] sorted@[j] == t[n as int].3[p@[j] as int],
                decreases p@.len() - k,
            {
                assert(p@[k as int] < keys@.len());
                sorted.push(node.children[p[k]]);
                k = k + 1;
            }
            assert(t[n as int].3 == t0[n as int].3);
            assert(is_stable_order(child_keys(t0, t0[n as int].3), p@));
            assert(children_sorted(t0, t0[n as int].3, sorted@));
            let ghost nv = (t[n as int].0, t[n as int].1, t[n as int].2, sorted@);
            node.children = sorted;
            self.nodes.set(n, node);
            assert(self@ =~= t.update(n as int, nv));
            assert forall|a: int, b: int| 0 <= a < self@.len() && 0 <= b < self@[a].3.len() implies a < #[trigger] self@[a].3[b] < self@.len() by {
                if a == n {
                    let pp = p@;
                    assert(pp[b] < t[a].3.len());
                    assert(self@[a].3[b] == t[a].3[pp[b] as int]);
                } else {
                    assert(self@[a].3 == t[a].3);
                }
            }
            n = n + 1;
        }
    }
}

/// What a path component counts as when paths are ordered: the root, `.`,
/// `..`, then ordinary names (compared as text), in that order of kinds.
pub open spec fn component_code(c: Seq<char>) -> Seq<char> {
    if c == seq!['/'] {
        seq!['\u{1}']
    } else if c == seq!['.'] {
        seq!['\u{2}']
    } else if c == seq!['.', '.'] {
        seq!['\u{3}']
    } else {
        seq!['\u{4}'] + c
    }
}

/// A text whose lexicographic order is `Path`'s order (component by
/// component) for paths without NUL chars, which Unix paths never hold.
pub open spec fn path_key(p: Seq<char>) -> Seq<char> {
    join_with(components(p).map_values(|c: Seq<char>| component_code(c)), seq!['\0'])
}

pub open spec fn path_keys(ps: Seq<Seq<char>>) -> Seq<SortKey> {
    ps.map_values(|p: Seq<char>| (0int, 0int, path_key(p)))
}

/// `out` is `src` sorted into path order (stable for equal paths).
pub open spec fn paths_sorted(src: Seq<Seq<char>>, out: Seq<Seq<char>>) -> bool {
    exists|p: Seq<usize>|
        #![trigger is_stable_order(path_keys(src), p)]
        is_stable_order(path_keys(src), p) && out.len() == p.len()
            && forall|k: int| 0 <= k < p.len() ==> #[trigger] out[k] == src[p[k] as int]
}

fn component_code_exec(c: &Vec<char>) -> (r: Vec<char>)
    ensures
        r@ == component_code(c@),
{
    let mut r: Vec<char> = Vec::new();
    if c.len() == 1 && c[0] == '/' {
        assert(c@ =~= seq!['/']);
        r.push('\u{1}');
    } else if c.len() == 1 && c[0] == '.' {
        assert(c@ =~= seq!['.']);
        r.push('\u{2}');
    } else if c.len() == 2 && c[0] == '.' && c[1] == '.' {
        assert(c@ =~= seq!['.', '.']);
        r.push('\u{3}');
    } else {
        assert(c@ != seq!['/'] && c@ != seq!['.'] && c@ != seq!['.', '.']);
        r.push('\u{4}');
        let mut tail = clone_chars(c);
        r.append(&mut tail);
    }
    assert(r@ =~= component_code(c@));
    r
}

/// The ordering text of `path`.
pub fn path_key_exec(path: &str) -> (r: Vec<char>)
    ensures
        r@ == path_key(path@),
{
    let comps = path_components(path);
    let mut codes: Vec<Vec<char>> = Vec::new();
    let mut k: usize = 0;
    while k < comps.len()
        invariant
            k <= comps@.len(),
            codes@.len() == k,
            forall|j: int| 0 <= j < k ==> #[trigger] codes@[j]@ == component_code(comps@[j]@),
        decreases comps@.len() - k,
    {
        codes.push(component_code_exec(&comps[k]));
        k = k + 1;
    }
    let r = join_prefix(&codes, codes.len(), '\0');
    assert(codes@.map_values(|p: Vec<char>| p@).take(codes@.len() as int)
        =~= components(path@).map_values(|c: Seq<char>| component_code(c)));
    r
}

/// `paths` in path order.
pub fn sort_paths(paths: &Vec<String>) -> (out: Vec<String>)
    ensures
        paths_sorted(paths@.map_values(|s: String| s@), out@.map_values(|s: String| s@)),
{
    let ghost src = paths@.map_values(|s: String| s@);
    let mut keys: Vec<SortKeyExec> = Vec::new();
    let mut k: usize = 0;
    while k < paths.len()
        invariant
            k <= paths@.len(),
            src == paths@.map_values(|s: String| s@),
            keys@.len() == k,
            forall|j: int| 0 <= j < k ==> #[trigger] keys@[j].view() == path_keys(src)[j],
        decreases paths@.len() - k,
    {
        keys.push(SortKeyExec { group: 0, num: 0, text: path_key_exec(paths[k].as_str()) });
        k = k + 1;
    }
    assert(keys_view(keys@) =~= path_keys(src));
    let p = stable_order(&keys);
    let mut out: Vec<String> = Vec::new();
    k = 0;
    while k < p.len()
        invariant
            k <= p@.len(),
            src == paths@.map_values(|s: String| s@),
            is_stable_order(path_keys(src), p@),
            out@.len() == k,
            forall|j: int| 0 <= j < k ==> #[trigger] out@[j]@ == src[p@[j] as int],
        decreases p@.len() - k,
    {
        assert(p@[k as int] < src.len());
        out.push(paths[p[k]].clone());
        k = k + 1;
    }
    let ghost ov = out@.map_values(|s: String| s@);
    assert forall|j: int| 0 <= j < p@.len() implies #[trigger] ov[j] == src[p@[j] as int] by {
        assert(ov[j] == out@[j]@);
    }
    out
}

pub proof fn lemma_split_on_len(s: Seq<char>, sep: char)
    ensures
        split_on(s, sep).len() <= s.len() + 1,
    decreases s.len(),
{
    crate::text::lemma_find_char_bound(s, sep);
    let k = find_char_of(s, sep);
    if k < s.len() {
        lemma_split_on_len(s.skip(k as int + 1), sep);
    }
}

spec fn find_char_of(s: Seq<char>, c: char) -> nat {
    crate::text::find_char(s, c)
}

/// A path has at most one more component than it has chars.
pub proof fn lemma_components_len(p: Seq<char>)
    ensures
        components(p).len() <= p.len() + 1,
{
    lemma_split_on_len(p, '/');
    crate::text::lemma_split_on_nonempty(p, '/');
    let pieces = split_on(p, '/');
    pieces.drop_first().lemma_filter_len(|c: Seq<char>| is_normal_piece(c));
    pieces.lemma_filter_len(|c: Seq<char>| is_normal_piece(c));
}

/// Paths of the files under the children `cs` of node `n`, depth first in
/// child order (a child that does not point past `n` cannot occur in a
/// well-formed tree and contributes nothing).
pub open spec fn dfs_files(t: Seq<NodeView>, n: int, cs: Seq<usize>) -> Seq<Seq<char>>
    decreases t.len() - n, cs.len(),
{
    if cs.len() == 0 {
        Seq::empty()
    } else {
        let before = dfs_files(t, n, cs.drop_last());
        let c = cs.last() as int;
        if c <= n || c >= t.len() {
            before
        } else if t[c].2 {
            before + dfs_files(t, c, t[c].3)
        } else {
            before.push(t[c].1)
        }
    }
}

pub open spec fn strings_view(v: Seq<String>) -> Seq<Seq<char>> {
    v.map_values(|s: String| s@)
}

impl FileTree {
    /// Appends the paths of the files below node `n`, depth first.
    fn collect_files_recursive(&self, n: usize, out: &mut Vec<String>)
        requires
            self.wf(),
            n < self.nodes@.len(),
        ensures
            strings_view(final(out)@) == strings_view(old(out)@) + dfs_files(self@, n as int, self@[n as int].3),
        decreases self.nodes@.len() - n,
    {
        let ghost t = self@;
        let ghost start = strings_view(out@);
        let cs = &self.nodes[n].children;
        let mut i: usize = 0;
        assert(cs@.take(0) =~= Seq::<usize>::empty());
        assert(strings_view(out@) =~= start + dfs_files(t, n as int, cs@.take(0)));
        while i < cs.len()
            invariant
                t == self@,
                tree_wf(t),
                n < t.len(),
                cs@ == t[n as int].3,
                i <= cs@.len(),
                strings_view(out@) == start + dfs_files(t, n as int, cs@.take(i as int)),
            decreases cs@.len() - i,
        {
            let c = cs[i];
            assert(n < c && c < t.len());
            assert(cs@.take(i + 1).drop_last() =~= cs@.take(i as int));
            assert(cs@.take(i + 1).last() == c);
            if self.nodes[c].is_dir {
                let ghost before = strings_view(out@);
                self.collect_files_recursive(c, out);
                assert(t[c as int].2);
                assert(dfs_files(t, n as int, cs@.take(i + 1))
                    == dfs_files(t, n as int, cs@.take(i as int)) + dfs_files(t, c as int, t[c as int].3));
                let ghost a = dfs_files(t, n as int, cs@.take(i as int));
                let ghost b = dfs_files(t, c as int, t[c as int].3);
                assert(before == start + a);
                assert(strings_view(out@) == before + b);
                assert((start + a) + b =~= start + (a + b));
            } else {
                let ghost before = strings_view(out@);
                out.push(self.nodes[c].path.clone());
                assert(!t[c as int].2);
                assert(strings_view(out@) =~= before.push(t[c as int].1));
                assert(dfs_files(t, n as int, cs@.take(i + 1)) == dfs_files(t, n as int, cs@.take(i as int)).push(t[c as int].1));
                assert(strings_view(out@) =~= start + dfs_files(t, n as int, cs@.take(i + 1)));
            }
            i = i + 1;
        }
        assert(cs@.take(cs@.len() as int) =~= cs@);
    }

    /// The paths of every file in the tree, in path order.
    pub fn collect_files(&self) -> (files: Vec<String>)
        requires
            self.wf(),
        ensures
            paths_sorted(dfs_files(self@, 0, self@[0].3), strings_view(files@)),
    {
        let mut out: Vec<String> = Vec::new();
        self.collect_files_recursive(0, &mut out);
        assert(strings_view(out@) =~= dfs_files(self@, 0, self@[0].3));
        sort_paths(&out)
    }
}

/// Whether a relative path lies inside the `.git` directory.
pub open spec fn is_git_metadata(p: Seq<char>) -> bool {
    components(p).len() > 0 && components(p)[0] == seq!['.', 'g', 'i', 't']
}

pub fn is_git_metadata_path(relative_path: &str) -> (r: bool)
    ensures
        r == is_git_metadata(relative_path@),
{
    let comps = path_components(relative_path);
    if comps.len() == 0 {
        return false;
    }
    let first = &comps[0];
    let r = first.len() == 4 && first[0] == '.' && first[1] == 'g' && first[2] == 'i' && first[3] == 't';
    assert(r == (first@ == seq!['.', 'g', 'i', 't'])) by {
        if first@ == seq!['.', 'g', 'i', 't'] {
            assert(first@.len() == 4);
        }
        if r {
            assert(first@ =~= seq!['.', 'g', 'i', 't']);
        }
    }
    r
}

/// One entry of a workspace walk: its path relative to the root.
#[derive(Debug, Clone)]
pub struct WalkEntry {
    pub relative_path: String,
    pub is_dir: bool,
}

/// Entries the index leaves out: the root itself (empty path) and git metadata.
pub open spec fn skipped(e: WalkEntry) -> bool {
    e.relative_path@.len() == 0 || is_git_metadata(e.relative_path@)
}

/// The tree after inserting the walk entries in order.
pub open spec fn index_tree(t: Seq<NodeView>, es: Seq<WalkEntry>) -> Seq<NodeView>
    decreases es.len(),
{
    if es.len() == 0 {
        t
    } else {
        let before = index_tree(t, es.drop_last());
        let e = es.last();
        if skipped(e) {
            before
        } else {
            insert_steps(before, 0, components(e.relative_path@), 0, Seq::empty(), e.is_dir)
        }
    }
}

/// The files among the walk entries, in walk order.
pub open spec fn index_files(es: Seq<WalkEntry>) -> Seq<Seq<char>>
    decreases es.len(),
{
    if es.len() == 0 {
        Seq::empty()
    } else {
        let before = index_files(es.drop_last());
        let e = es.last();
        if skipped(e) || e.is_dir {
            before
        } else {
            before.push(e.relative_path@)
        }
    }
}

/// Total chars of the entries' paths: a bound on the nodes they can add.
pub open spec fn total_path_len(es: Seq<WalkEntry>) -> nat
    decreases es.len(),
{
    if es.len() == 0 {
        0
    } else {
        total_path_len(es.drop_last()) + es.last().relative_path@.len() + 1
    }
}

/// The tree and the sorted file list of a workspace walk whose root is
/// called `root_name`.
pub fn build_workspace_index(root_name: String, entries: &Vec<WalkEntry>) -> (r: (FileTree, Vec<String>))
    requires
        1 + total_path_len(entries@) < usize::MAX,
    ensures
        r.0.wf(),
        r.0@ == index_tree(seq![(root_name@, Seq::<char>::empty(), true, Seq::<usize>::empty())], entries@),
        paths_sorted(index_files(entries@), strings_view(r.1@)),
{
    let mut tree = FileTree::root(root_name);
    let ghost t0 = tree@;
    let mut files: Vec<String> = Vec::new();
    let mut i: usize = 0;
    while i < entries.len()
        invariant
            i <= entries@.len(),
            1 + total_path_len(entries@) < usize::MAX,
            tree.wf(),
            tree@ == index_tree(t0, entries@.take(i as int)),
            tree.nodes@.len() <= 1 + total_path_len(entries@.take(i as int)),
            strings_view(files@) == index_files(entries@.take(i as int)),
        decreases entries@.len() - i,
    {
        let ghost es = entries@.take(i + 1);
        assert(es.drop_last() =~= entries@.take(i as int));
        assert(es.last() == entries@[i as int]);
        proof {
            lemma_total_path_len_prefix(entries@, i as int + 1);
        }
        let e = &entries[i];
        let skip = e.relative_path.as_str().unicode_len() == 0 || is_git_metadata_path(e.relative_path.as_str());
        if !skip {
            proof {
                lemma_components_len(e.relative_path@);
            }
            tree.insert_node(e.relative_path.as_str(), e.is_dir);
            if !e.is_dir {
                files.push(e.relative_path.clone());
            }
        }
        assert(strings_view(files@) =~= index_files(es));
        i = i + 1;
    }
    assert(entries@.take(entries@.len() as int) =~= entries@);
    let sorted = sort_paths(&files);
    (tree, sorted)
}

proof fn lemma_total_path_len_prefix(es: Seq<WalkEntry>, k: int)
    requires
        0 <= k <= es.len(),
    ensures
        total_path_len(es.take(k)) <= total_path_len(es),
    decreases es.len(),
{
    if k < es.len() {
        assert(es.drop_last().take(k) =~= es.take(k));
        lemma_total_path_len_prefix(es.drop_last(), k);
    } else {
        assert(es.take(k) =~= es);
    }
}

/// The files of a workspace walk, in path order.
pub fn workspace_files(root_name: String, entries: &Vec<WalkEntry>) -> (files: Vec<String>)
    requires
        1 + total_path_len(entries@) < usize::MAX,
    ensures
        paths_sorted(index_files(entries@), strings_view(files@)),
{
    let (_, files) = build_workspace_index(root_name, entries);
    files
}

/// `n` as two decimal digits (`{n:02}` for `n < 100`).
pub open spec fn two_digits(n: nat) -> Seq<char> {
    seq![crate::strs::digit_char(n / 10), crate::strs::digit_char(n % 10)]
}

fn digit(d: usize) -> (c: char)
    requires
        d < 10,
    ensures
        c == crate::strs::digit_char(d as nat),
{
    if d == 0 { '0' } else if d == 1 { '1' } else if d == 2 { '2' } else if d == 3 { '3' }
    else if d == 4 { '4' } else if d == 5 { '5' } else if d == 6 { '6' } else if d == 7 { '7' }
    else if d == 8 { '8' } else { '9' }
}

fn two_digits_exec(n: usize) -> (v: Vec<char>)
    requires
        n < 100,
    ensures
        v@ == two_digits(n as nat),
{
    let mut v: Vec<char> = Vec::new();
    v.push(digit(n / 10));
    v.push(digit(n % 10));
    assert(v@ =~= two_digits(n as nat));
    v
}

/// Path of file `i` of the debug fixture: 14 modules of 6 features of 8 files.
pub open spec fn debug_path(i: int) -> Seq<char> {
    "module_"@ + two_digits((i / 48) as nat) + "/feature_"@ + two_digits(((i / 8) % 6) as nat) + "/file_"@
        + two_digits((i % 8) as nat) + ".rs"@
}

pub open spec fn debug_paths() -> Seq<Seq<char>> {
    Seq::new(672, |i: int| debug_path(i))
}

/// The tree after inserting each path as a file, in order.
pub open spec fn insert_files(t: Seq<NodeView>, ps: Seq<Seq<char>>) -> Seq<NodeView>
    decreases ps.len(),
{
    if ps.len() == 0 {
        t
    } else {
        insert_steps(insert_files(t, ps.drop_last()), 0, components(ps.last()), 0, Seq::empty(), false)
    }
}

fn debug_path_exec(i: usize) -> (p: String)
    requires
        i < 672,
    ensures
        p@ == debug_path(i as int),
        p@.len() == 31,
{
    let mut v = chars_of("module_");
    let mut part = two_digits_exec(i / 48);
    v.append(&mut part);
    let mut part = chars_of("/feature_");
    v.append(&mut part);
    let mut part = two_digits_exec((i / 8) % 6);
    v.append(&mut part);
    let mut part = chars_of("/file_");
    v.append(&mut part);
    let mut part = two_digits_exec(i % 8);
    v.append(&mut part);
    let mut part = chars_of(".rs");
    v.append(&mut part);
    proof {
        reveal_strlit("module_");
        reveal_strlit("/feature_");
        reveal_strlit("/file_");
        reveal_strlit(".rs");
    }
    assert(v@ =~= debug_path(i as int));
    string_from_chars(v.as_slice())
}

/// A fixed workspace for trying the browser without a disk: 14 modules of
/// 6 features of 8 Rust files each, children in display order.
pub fn build_debug_tree() -> (t: FileTree)
    ensures
        t.wf(),
        t.nodes@.len() <= 1 + 32 * 672,
        tree_sorted(
            insert_files(seq![("debug-workspace"@, Seq::<char>::empty(), true, Seq::<usize>::empty())], debug_paths()),
            t@,
        ),
{
    let mut tree = FileTree::root(crate::strs::to_owned("debug-workspace"));
    let ghost t0 = tree@;
    let mut i: usize = 0;
    while i < 672
        invariant
            i <= 672,
            tree.wf(),
            tree.nodes@.len() <= 1 + 32 * i,
            tree@ == insert_files(t0, debug_paths().take(i as int)),
        decreases 672 - i,
    {
        let path = debug_path_exec(i);
        proof {
            lemma_components_len(path@);
            assert(debug_paths().take(i + 1).drop_last() =~= debug_paths().take(i as int));
            assert(debug_paths().take(i + 1).last() == path@);
        }
        tree.insert_node(path.as_str(), false);
        i = i + 1;
    }
    assert(debug_paths().take(672) =~= debug_paths());
    tree.sort_recursive();
    tree
}

/// Appending a child to a list is seen by the name search only when no
/// earlier child has the name.
proof fn lemma_find_named_push(t: Seq<NodeView>, cs: Seq<usize>, x: usize, name: Seq<char>)
    ensures
        find_named(t, cs.push(x), name) == match find_named(t, cs, name) {
            Some(c) => Some(c),
            None => if t[x as int].0 == name { Some(x) } else { None },
        },
    decreases cs.len(),
{
    if cs.len() > 0 {
        assert(cs.push(x)[0] == cs[0]);
        assert(cs.push(x).drop_first() =~= cs.drop_first().push(x));
        lemma_find_named_push(t, cs.drop_first(), x, name);
        assert(cs.push(x).len() > 0);
    } else {
        assert(cs.push(x)[0] == x);
        assert(cs.push(x).drop_first() =~= Seq::<usize>::empty());
        assert(find_named(t, cs.push(x).drop_first(), name) is None);
        assert(find_named(t, cs, name) is None);
    }
}

/// The name search reads only the names of the listed children.
proof fn lemma_find_named_same_names(t1: Seq<NodeView>, t2: Seq<NodeView>, cs: Seq<usize>, name: Seq<char>)
    requires
        forall|k: int| 0 <= k < cs.len() ==> t1[#[trigger] cs[k] as int].0 == t2[cs[k] as int].0,
    ensures
        find_named(t1, cs, name) == find_named(t2, cs, name),
    decreases cs.len(),
{
    if cs.len() > 0 {
        assert(t1[cs[0] as int].0 == t2[cs[0] as int].0);
        assert forall|k: int| 0 <= k < cs.drop_first().len() implies t1[#[trigger] cs.drop_first()[k] as int].0 == t2[cs.drop_first()[k] as int].0 by {
            assert(cs.drop_first()[k] == cs[k + 1]);
        }
        lemma_find_named_same_names(t1, t2, cs.drop_first(), name);
    }
}

/// A walk from `cursor` keeps the tree well formed, keeps every existing
/// name, and leaves the nodes before the cursor as they were.
proof fn lemma_insert_steps_frame(
    t: Seq<NodeView>,
    cursor: int,
    comps: Seq<Seq<char>>,
    k: nat,
    path: Seq<char>,
    is_dir: bool,
)
    requires
        tree_wf(t),
        0 <= cursor < t.len(),
        t.len() + comps.len() - k < usize::MAX,
    ensures
        tree_wf(insert_steps(t, cursor, comps, k, path, is_dir)),
        insert_steps(t, cursor, comps, k, path, is_dir).len() >= t.len(),
        forall|x: int| 0 <= x < t.len() ==> (#[trigger] insert_steps(t, cursor, comps, k, path, is_dir)[x]).0 == t[x].0,
        forall|x: int| 0 <= x < cursor ==> #[trigger] insert_steps(t, cursor, comps, k, path, is_dir)[x] == t[x],
    decreases comps.len() - k,
{
    if k < comps.len() {
        let name = comps[k as int];
        let path2 = push_path(path, name);
        match find_named(t, t[cursor].3, name) {
            Some(c) => {
                lemma_find_named_child(t, t[cursor].3, name, cursor);
                lemma_insert_steps_frame(t, c as int, comps, k + 1, path2, is_dir);
            },
            None => {
                let node: NodeView = (name, path2, if k + 1 == comps.len() { is_dir } else { true }, Seq::empty());
                let parent = t[cursor];
                let t2 = t.update(cursor, (parent.0, parent.1, parent.2, parent.3.push(t.len() as usize))).push(node);
                assert forall|n: int, j: int| 0 <= n < t2.len() && 0 <= j < t2[n].3.len() implies n < #[trigger] t2[n].3[j] < t2.len() by {
                    if n < t.len() && n != cursor {
                        assert(t2[n].3 == t[n].3);
                    }
                }
                lemma_insert_steps_frame(t2, t.len() as int, comps, k + 1, path2, is_dir);
            },
        }
    }
}

/// Walking the same components again, from a node the first walk passed
/// through, changes nothing more.
proof fn lemma_insert_steps_again(
    t: Seq<NodeView>,
    cursor: int,
    comps: Seq<Seq<char>>,
    k: nat,
    path: Seq<char>,
    is_dir: bool,
    is_dir2: bool,
)
    requires
        tree_wf(t),
        0 <= cursor < t.len(),
        t.len() + comps.len() - k < usize::MAX,
    ensures
        insert_steps(insert_steps(t, cursor, comps, k, path, is_dir), cursor, comps, k, path, is_dir2)
            == insert_steps(t, cursor, comps, k, path, is_dir),
    decreases comps.len() - k,
{
    let t1 = insert_steps(t, cursor, comps, k, path, is_dir);
    if k < comps.len() {
        let name = comps[k as int];
        let path2 = push_path(path, name);
        match find_named(t, t[cursor].3, name) {
            Some(c) => {
                lemma_find_named_child(t, t[cursor].3, name, cursor);
                lemma_insert_steps_frame(t, c as int, comps, k + 1, path2, is_dir);
                lemma_insert_steps_again(t, c as int, comps, k + 1, path2, is_dir, is_dir2);
                assert(t1[cursor] == t[cursor]);
                assert forall|j: int| 0 <= j < t[cursor].3.len() implies t1[#[trigger] t[cursor].3[j] as int].0 == t[t[cursor].3[j] as int].0 by {
                    assert(t[cursor].3[j] < t.len());
                }
                lemma_find_named_same_names(t1, t, t[cursor].3, name);
            },
            None => {
                let node: NodeView = (name, path2, if k + 1 == comps.len() { is_dir } else { true }, Seq::empty());
                let parent = t[cursor];
                let t2 = t.update(cursor, (parent.0, parent.1, parent.2, parent.3.push(t.len() as usize))).push(node);
                assert forall|n: int, j: int| 0 <= n < t2.len() && 0 <= j < t2[n].3.len() implies n < #[trigger] t2[n].3[j] < t2.len() by {
                    if n < t.len() && n != cursor {
                        assert(t2[n].3 == t[n].3);
                    }
                }
                lemma_insert_steps_frame(t2, t.len() as int, comps, k + 1, path2, is_dir);
                lemma_insert_steps_again(t2, t.len() as int, comps, k + 1, path2, is_dir, is_dir2);
                assert(t1[cursor] == t2[cursor]);
                assert(t1[cursor].3 == t[cursor].3.push(t.len() as usize));
                assert forall|j: int| 0 <= j < t[cursor].3.len() implies t1[#[trigger] t[cursor].3[j] as int].0 == t[t[cursor].3[j] as int].0 by {
                    assert(t[cursor].3[j] < t.len());
                    assert(t2[t[cursor].3[j] as int].0 == t[t[cursor].3[j] as int].0);
                }
                lemma_find_named_same_names(t1, t, t[cursor].3, name);
                lemma_find_named_push(t1, t[cursor].3, t.len() as usize, name);
                assert(t1[t.len() as int].0 == t2[t.len() as int].0);
            },
        }
    }
}

/// Inserting a path that was just inserted leaves the tree as it is (whether
/// the second insert says file or directory).
pub proof fn law_insert_node_is_idempotent(t: Seq<NodeView>, path: Seq<char>, is_dir: bool, is_dir2: bool)
    requires
        tree_wf(t),
        t.len() + components(path).len() < usize::MAX,
    ensures
        insert_steps(insert_steps(t, 0, components(path), 0, Seq::empty(), is_dir), 0, components(path), 0, Seq::empty(), is_dir2)
            == insert_steps(t, 0, components(path), 0, Seq::empty(), is_dir),
{
    lemma_insert_steps_again(t, 0, components(path), 0, Seq::empty(), is_dir, is_dir2);
}

} // verus!
