//! Unix paths. A path is a sequence of bytes, which need not be valid UTF-8.
use crate::text::Text;
use vstd::prelude::*;
use vstd::slice::slice_subrange;
use vstd::utf8::*;

verus! {

/// The byte that separates the components of a path.
pub const SLASH: u8 = 0x2f;

/// The byte that makes up the component for the current directory.
pub const DOT: u8 = 0x2e;

/// What `String::from_utf8_lossy` makes of `bytes`.
pub uninterp spec fn lossy_text(bytes: Seq<u8>) -> Text;

/// `String::from_utf8_lossy`. What it puts in place of the parts that are not UTF-8 is named and
/// not stated; bytes that are valid UTF-8 give exactly the text that they encode.
#[verifier::external_body]
pub(crate) fn lossy(bytes: &[u8]) -> (r: String)
    ensures
        r@ == lossy_text(bytes@),
        valid_utf8(bytes@) ==> r@ == decode_utf8(bytes@),
{
    String::from_utf8_lossy(bytes).into_owned()
}

/// How many of the first `n` bytes are valid UTF-8 together: the most that are.
pub open spec fn longest_text(bytes: Seq<u8>, n: nat) -> nat
    decreases n,
{
    if n == 0 || valid_utf8(bytes.take(n as int)) {
        n
    } else {
        longest_text(bytes, (n - 1) as nat)
    }
}

/// The longest text with which some bytes begin, after how many bytes it ends.
pub(crate) fn leading_text(bytes: &[u8]) -> (r: (usize, String))
    ensures
        r.0 <= bytes@.len(),
        r.0 == longest_text(bytes@, bytes@.len()),
        r.1@ == decode_utf8(bytes@.take(r.0 as int)),
{
    let mut n: usize = bytes.len();
    while n > 0
        invariant
            n <= bytes@.len(),
            longest_text(bytes@, n as nat) == longest_text(bytes@, bytes@.len()),
        decreases n,
    {
        if let Some(text) = checked_text(slice_subrange(bytes, 0, n)) {
            assert(bytes@.subrange(0, n as int) == bytes@.take(n as int));
            return (n, text);
        }
        assert(bytes@.subrange(0, n as int) == bytes@.take(n as int));
        n = n - 1;
    }
    (0, String::new())
}

/// The longest text ends where no more of the bytes are valid UTF-8 together.
pub proof fn law_longest_text(bytes: Seq<u8>, n: nat)
    requires
        n <= bytes.len(),
    ensures
        longest_text(bytes, n) <= n,
        valid_utf8(bytes.take(longest_text(bytes, n) as int)),
        forall|m: int| longest_text(bytes, n) < m <= n ==> !valid_utf8(#[trigger] bytes.take(m)),
    decreases n,
{
    if n > 0 && !valid_utf8(bytes.take(n as int)) {
        law_longest_text(bytes, (n - 1) as nat);
    }
}

/// `std::str::from_utf8`: succeeds on valid UTF-8 alone, with the text that the bytes encode.
#[verifier::external_body]
fn checked_text(bytes: &[u8]) -> (r: Option<String>)
    ensures
        r is Some == valid_utf8(bytes@),
        r is Some ==> r->0@ == decode_utf8(bytes@),
{
    match std::str::from_utf8(bytes) {
        Ok(text) => Some(text.to_owned()),
        Err(_) => None,
    }
}

/// `path` without the separators and the current-directory components at its end.
pub open spec fn settled(path: Seq<u8>) -> Seq<u8>
    decreases path.len(),
{
    if path.len() > 1 && path.last() == SLASH {
        settled(path.drop_last())
    } else if path.len() > 1 && path.last() == DOT && path[path.len() - 2] == SLASH {
        settled(path.drop_last())
    } else {
        path
    }
}

/// Where the last component of `path` begins: behind the last separator.
pub open spec fn name_start(path: Seq<u8>) -> int
    decreases path.len(),
{
    if path.len() == 0 || path.last() == SLASH {
        path.len() as int
    } else {
        name_start(path.drop_last())
    }
}

/// Whether `path` starts at the root.
pub open spec fn absolute(path: Seq<u8>) -> bool {
    path.len() > 0 && path[0] == SLASH
}

/// `name` inside the directory `base`; an absolute `name` stands for itself.
pub open spec fn joined(base: Seq<u8>, name: Seq<u8>) -> Seq<u8> {
    if absolute(name) {
        name
    } else if base.len() == 0 || base.last() == SLASH {
        base + name
    } else {
        base.push(SLASH) + name
    }
}

/// The last component of `path`, unless it is the root, `.` or `..`.
pub open spec fn base_name(path: Seq<u8>) -> Option<Seq<u8>> {
    let whole = settled(path);
    let name = whole.skip(name_start(whole));
    if name.len() == 0 || name == seq![DOT] || name == seq![DOT, DOT] {
        None
    } else {
        Some(name)
    }
}

/// Where the last dot of `name` stands: -1 where there is none.
pub open spec fn last_dot(name: Seq<u8>) -> int
    decreases name.len(),
{
    if name.len() == 0 {
        -1
    } else if name.last() == DOT {
        name.len() - 1
    } else {
        last_dot(name.drop_last())
    }
}

/// What follows the last dot of the last component of `path`. A dot that starts the component does
/// not count.
pub open spec fn extension(path: Seq<u8>) -> Option<Seq<u8>> {
    match base_name(path) {
        None => None,
        Some(name) => if last_dot(name) <= 0 {
            None
        } else {
            Some(name.skip(last_dot(name) + 1))
        },
    }
}

/// `path` without its last component; the root and the empty path have none.
pub open spec fn parent_path(path: Seq<u8>) -> Option<Seq<u8>> {
    let whole = settled(path);
    if whole.len() == 0 || whole == seq![SLASH] {
        None
    } else {
        Some(settled(whole.take(name_start(whole))))
    }
}

/// `path` with its last component replaced by `name`.
pub open spec fn renamed(path: Seq<u8>, name: Seq<u8>) -> Seq<u8> {
    if base_name(path) is Some && parent_path(path) is Some {
        joined(parent_path(path)->0, name)
    } else {
        joined(path, name)
    }
}

proof fn lemma_settled_len(path: Seq<u8>)
    ensures
        settled(path).len() <= path.len(),
        settled(path).len() > 1 ==> settled(path).last() != SLASH,
        settled(path) == path.take(settled(path).len() as int),
    decreases path.len(),
{
    if path.len() > 1 && (path.last() == SLASH || (path.last() == DOT && path[path.len() - 2]
        == SLASH)) {
        lemma_settled_len(path.drop_last());
        assert(path.drop_last().take(settled(path).len() as int) == path.take(
            settled(path).len() as int,
        ));
    } else {
        assert(path.take(path.len() as int) == path);
    }
}

proof fn lemma_name_start(path: Seq<u8>)
    ensures
        0 <= name_start(path) <= path.len(),
        path.len() > 0 && path.last() != SLASH ==> name_start(path) < path.len(),
        name_start(path) > 0 ==> path[name_start(path) - 1] == SLASH,
        forall|i: int| name_start(path) <= i < path.len() ==> path[i] != SLASH,
    decreases path.len(),
{
    if path.len() > 0 && path.last() != SLASH {
        let front = path.drop_last();
        lemma_name_start(front);
        assert forall|i: int| name_start(path) <= i < path.len() implies path[i] != SLASH by {
            if i < front.len() {
                assert(front[i] == path[i]);
            }
        }
    }
}

/// A path is longer than its parent.
pub proof fn lemma_parent_is_shorter(path: Seq<u8>)
    ensures
        parent_path(path) is Some ==> parent_path(path)->0.len() < path.len(),
{
    let whole = settled(path);
    lemma_settled_len(path);
    lemma_name_start(whole);
    lemma_settled_len(whole.take(name_start(whole)));
    if whole.len() == 1 && whole.last() == SLASH {
        assert(whole == seq![SLASH]);
    }
}

/// `path`, its parent, the parent of that, and so on.
pub open spec fn ancestry(path: Seq<u8>) -> Seq<Seq<u8>>
    decreases path.len(),
    via ancestry_decreases
{
    match parent_path(path) {
        None => seq![path],
        Some(parent) => seq![path] + ancestry(parent),
    }
}

#[via_fn]
proof fn ancestry_decreases(path: Seq<u8>) {
    lemma_parent_is_shorter(path);
}

/// A file name that is joined to an absolute path ends an absolute path.
pub proof fn law_joined_stays_absolute(base: Seq<u8>, name: Seq<u8>)
    requires
        absolute(base),
    ensures
        absolute(joined(base, name)),
{
}

/// A path.
#[derive(Debug, PartialEq, Eq)]
pub struct FilePath {
    bytes: Vec<u8>,
}

impl View for FilePath {
    type V = Seq<u8>;

    closed spec fn view(&self) -> Seq<u8> {
        self.bytes@
    }
}

/// The bytes `bytes[from..to]`.
fn bytes_between(bytes: &Vec<u8>, from: usize, to: usize) -> (r: Vec<u8>)
    requires
        from <= to <= bytes@.len(),
    ensures
        r@ == bytes@.subrange(from as int, to as int),
{
    let mut part: Vec<u8> = Vec::new();
    let mut i: usize = from;
    while i < to
        invariant
            from <= i <= to <= bytes@.len(),
            part@ == bytes@.subrange(from as int, i as int),
        decreases to - i,
    {
        part.push(bytes[i]);
        i = i + 1;
    }
    part
}

impl Clone for FilePath {
    fn clone(&self) -> (r: Self)
        ensures
            r@ == self@,
    {
        FilePath { bytes: bytes_between(&self.bytes, 0, self.bytes.len()) }
    }
}

/// The paths that a vector holds.
pub open spec fn path_views(paths: Seq<FilePath>) -> Seq<Seq<u8>> {
    paths.map_values(|p: FilePath| p@)
}

/// The bytes of an optional path.
pub open spec fn path_option(path: Option<FilePath>) -> Option<Seq<u8>> {
    match path {
        None => None,
        Some(p) => Some(p@),
    }
}

impl FilePath {
    /// The path made of `bytes`.
    pub fn from_bytes(bytes: Vec<u8>) -> (r: FilePath)
        ensures
            r@ == bytes@,
    {
        FilePath { bytes }
    }

    /// The path written as `text`.
    pub fn from_text(text: &str) -> (r: FilePath)
        ensures
            r@ == encode_utf8(text@),
    {
        FilePath { bytes: text.as_bytes_vec() }
    }

    /// The bytes of the path.
    pub fn as_bytes(&self) -> (r: &Vec<u8>)
        ensures
            r@ == self@,
    {
        &self.bytes
    }

    /// The path as text, where it is valid UTF-8.
    pub fn to_text(&self) -> (r: Option<String>)
        ensures
            r is Some == valid_utf8(self@),
            r is Some ==> r->0@ == decode_utf8(self@),
    {
        checked_text(self.bytes.as_slice())
    }

    /// The path for a reader. A path that is valid UTF-8 is shown as it is.
    pub fn display(&self) -> (r: String)
        ensures
            r@ == lossy_text(self@),
            valid_utf8(self@) ==> r@ == decode_utf8(self@),
    {
        lossy(self.bytes.as_slice())
    }

    /// Whether the path starts at the root.
    pub fn is_absolute(&self) -> (r: bool)
        ensures
            r == absolute(self@),
    {
        self.bytes.len() > 0 && self.bytes[0] == SLASH
    }

    /// Whether two paths have the same bytes.
    pub fn same_as(&self, other: &FilePath) -> (r: bool)
        ensures
            r == (self@ == other@),
    {
        if self.bytes.len() != other.bytes.len() {
            return false;
        }
        let mut i: usize = 0;
        while i < self.bytes.len()
            invariant
                i <= self.bytes@.len() == other.bytes@.len(),
                forall|j: int| 0 <= j < i ==> self.bytes@[j] == other.bytes@[j],
            decreases self.bytes@.len() - i,
        {
            if self.bytes[i] != other.bytes[i] {
                assert(self.bytes@[i as int] != other.bytes@[i as int]);
                return false;
            }
            i = i + 1;
        }
        assert(self.bytes@ =~= other.bytes@);
        true
    }

    /// `name` inside this directory; an absolute `name` stands for itself.
    pub fn join(&self, name: &FilePath) -> (r: FilePath)
        ensures
            r@ == joined(self@, name@),
    {
        if name.is_absolute() {
            return name.clone();
        }
        let mut whole = self.clone();
        if self.bytes.len() > 0 && self.bytes[self.bytes.len() - 1] != SLASH {
            whole.bytes.push(SLASH);
        }
        let ghost front = whole.bytes@;
        let mut i: usize = 0;
        while i < name.bytes.len()
            invariant
                i <= name.bytes@.len(),
                whole.bytes@ == front + name.bytes@.take(i as int),
            decreases name.bytes@.len() - i,
        {
            whole.bytes.push(name.bytes[i]);
            i = i + 1;
            assert(name.bytes@.take(i as int) == name.bytes@.take(i - 1).push(
                name.bytes@[i - 1],
            ));
            assert(whole.bytes@ == front + name.bytes@.take(i as int));
        }
        assert(name.bytes@.take(name.bytes@.len() as int) == name.bytes@);
        whole
    }

    /// The file called `name` inside this directory.
    pub fn join_text(&self, name: &str) -> (r: FilePath)
        ensures
            r@ == joined(self@, encode_utf8(name@)),
    {
        self.join(&FilePath::from_text(name))
    }

    /// How much of the path is left without the separators and dots at its end.
    fn settled_len(&self) -> (r: usize)
        ensures
            r <= self@.len(),
            settled(self@) == self@.take(r as int),
    {
        let mut end: usize = self.bytes.len();
        assert(self@.take(end as int) == self@);
        while end > 1 && (self.bytes[end - 1] == SLASH || (self.bytes[end - 1] == DOT
            && self.bytes[end - 2] == SLASH))
            invariant
                end <= self.bytes@.len(),
                self.bytes@ == self@,
                settled(self@) == settled(self@.take(end as int)),
            decreases end,
        {
            assert(self@.take(end as int).drop_last() == self@.take(end - 1));
            end = end - 1;
        }
        end
    }

    /// Where the last component of `self[..end]` begins.
    fn name_start_before(&self, end: usize) -> (r: usize)
        requires
            end <= self@.len(),
        ensures
            r as int == name_start(self@.take(end as int)),
            r <= end,
    {
        let mut start: usize = end;
        while start > 0 && self.bytes[start - 1] != SLASH
            invariant
                start <= end <= self.bytes@.len(),
                self.bytes@ == self@,
                name_start(self@.take(end as int)) == name_start(self@.take(start as int)),
            decreases start,
        {
            assert(self@.take(start as int).drop_last() == self@.take(start - 1));
            start = start - 1;
        }
        start
    }

    /// The last component of the path, unless it is the root, `.` or `..`.
    pub fn file_name(&self) -> (r: Option<FilePath>)
        ensures
            path_option(r) == base_name(self@),
    {
        let end = self.settled_len();
        let start = self.name_start_before(end);
        let name = bytes_between(&self.bytes, start, end);
        assert(name@ == self@.take(end as int).skip(start as int));
        if name.len() == 0 || (name.len() == 1 && name[0] == DOT) || (name.len() == 2 && name[0]
            == DOT && name[1] == DOT) {
            proof {
                if name@.len() == 1 {
                    assert(name@ == seq![DOT]);
                } else if name@.len() == 2 {
                    assert(name@ == seq![DOT, DOT]);
                }
            }
            None
        } else {
            Some(FilePath { bytes: name })
        }
    }

    /// What follows the last dot of the last component of the path.
    pub fn extension(&self) -> (r: Option<FilePath>)
        ensures
            path_option(r) == extension(self@),
    {
        let name = match self.file_name() {
            None => {
                return None;
            },
            Some(name) => name,
        };
        let mut end: usize = name.bytes.len();
        assert(name@.take(end as int) == name@);
        while end > 0 && name.bytes[end - 1] != DOT
            invariant
                end <= name.bytes@.len(),
                name.bytes@ == name@,
                last_dot(name@) == last_dot(name@.take(end as int)),
            decreases end,
        {
            assert(name@.take(end as int).drop_last() == name@.take(end - 1));
            end = end - 1;
        }
        if end <= 1 {
            return None;
        }
        let bytes = bytes_between(&name.bytes, end, name.bytes.len());
        assert(bytes@ == name@.skip(end as int));
        Some(FilePath { bytes })
    }

    /// The path without its last component.
    pub fn parent(&self) -> (r: Option<FilePath>)
        ensures
            path_option(r) == parent_path(self@),
    {
        let end = self.settled_len();
        if end == 0 || (end == 1 && self.bytes[0] == SLASH) {
            assert(end == 1 ==> self@.take(end as int) == seq![SLASH]);
            return None;
        }
        let start = self.name_start_before(end);
        let front = FilePath { bytes: bytes_between(&self.bytes, 0, start) };
        let kept = front.settled_len();
        assert(front@ == self@.take(end as int).take(start as int));
        assert(self@.subrange(0, kept as int) == front@.take(kept as int));
        Some(FilePath { bytes: bytes_between(&self.bytes, 0, kept) })
    }

    /// The path with its last component replaced by `name`.
    pub fn with_file_name(&self, name: &str) -> (r: FilePath)
        ensures
            r@ == renamed(self@, encode_utf8(name@)),
    {
        if self.file_name().is_some() {
            if let Some(parent) = self.parent() {
                return parent.join_text(name);
            }
        }
        self.join_text(name)
    }

    /// The path, its parent, the parent of that, and so on.
    pub fn ancestors(&self) -> (r: Vec<FilePath>)
        ensures
            path_views(r@) == ancestry(self@),
    {
        let mut found: Vec<FilePath> = Vec::new();
        let mut current = self.clone();
        loop
            invariant
                ancestry(self@) == path_views(found@) + ancestry(current@),
            decreases current@.len(),
        {
            let parent = current.parent();
            let ghost before = path_views(found@);
            let ghost here = current@;
            proof {
                lemma_parent_is_shorter(here);
            }
            found.push(current);
            assert(path_views(found@) == before.push(here));
            match parent {
                None => {
                    assert(before + seq![here] == before.push(here));
                    return found;
                },
                Some(next) => {
                    assert(before + (seq![here] + ancestry(next@)) == before.push(here)
                        + ancestry(next@));
                    current = next;
                },
            }
        }
    }
}

/// A relative name is put into a directory behind one slash; an absolute one stands for itself.
pub proof fn law_joined_puts_one_slash(base: Seq<u8>, name: Seq<u8>)
    ensures
        name.len() > 0 && name[0] == 0x2f ==> joined(base, name) == name,
        (name.len() == 0 || name[0] != 0x2f) && base.len() > 0 && base.last() != 0x2f ==> joined(
            base,
            name,
        ) == base + seq![0x2fu8] + name,
        (name.len() == 0 || name[0] != 0x2f) && base.len() > 0 && base.last() == 0x2f ==> joined(
            base,
            name,
        ) == base + name,
        (name.len() == 0 || name[0] != 0x2f) && base.len() == 0 ==> joined(base, name) == name,
        absolute(name) <==> name.len() > 0 && name[0] == 0x2f,
{
    assert(base.push(SLASH) =~= base + seq![0x2fu8]);
    if base.len() == 0 {
        assert(base + name =~= name);
    }
}

/// A name that a file can have in a directory.
pub open spec fn component(name: Seq<u8>) -> bool {
    &&& name.len() > 0
    &&& !name.contains(0x2f)
    &&& name != seq![0x2eu8]
    &&& name != seq![0x2eu8, 0x2eu8]
}

proof fn lemma_component_is_settled(front: Seq<u8>, name: Seq<u8>)
    requires
        component(name),
        front.len() == 0 || front.last() == 0x2f,
    ensures
        settled(front + name) == front + name,
        name_start(front + name) == front.len(),
{
    let whole = front + name;
    assert(name.contains(name.last()));
    assert(whole.last() == name.last());
    if name.len() == 1 {
        assert(name =~= seq![name[0]]);
    } else {
        assert(name.contains(name[name.len() - 2]));
        assert(whole[whole.len() - 2] == name[name.len() - 2]);
    }
    lemma_name_start(whole);
    let n = name_start(whole);
    if n > front.len() {
        assert(whole[n - 1] == name[n - 1 - front.len()]);
        assert(name.contains(name[n - 1 - front.len()]));
    }
    if n < front.len() {
        assert(whole[front.len() - 1] == front.last());
    }
}

/// The last component of a path is what stands behind its last slash, and a slash behind it does not
/// count.
pub proof fn law_base_name_is_the_last_component(dir: Seq<u8>, name: Seq<u8>)
    requires
        component(name),
    ensures
        base_name(dir + seq![0x2fu8] + name) == Some(name),
        base_name(dir + seq![0x2fu8] + name + seq![0x2fu8]) == Some(name),
        base_name(name) == Some(name),
{
    let front = dir + seq![0x2fu8];
    lemma_component_is_settled(front, name);
    assert((front + name).skip(front.len() as int) =~= name);
    let longer = front + name + seq![0x2fu8];
    assert(longer.drop_last() =~= front + name);
    lemma_component_is_settled(Seq::empty(), name);
    assert(Seq::<u8>::empty() + name =~= name);
    assert(name.skip(0) =~= name);
}

/// A directory without a slash, or a slash and a dot, at its end.
pub open spec fn plain_directory(dir: Seq<u8>) -> bool {
    &&& dir.len() > 0
    &&& dir.last() != 0x2f
    &&& dir.len() > 1 && dir.last() == 0x2e ==> dir[dir.len() - 2] != 0x2f
}

/// The parent of a path is what stands before its last component; that of a path right below the
/// root is the root, which has none.
pub proof fn law_parent_is_the_directory(dir: Seq<u8>, name: Seq<u8>)
    requires
        component(name),
    ensures
        plain_directory(dir) ==> parent_path(dir + seq![0x2fu8] + name) == Some(dir),
        parent_path(seq![0x2fu8] + name) == Some(seq![0x2fu8]),
        parent_path(seq![0x2fu8]) is None,
        parent_path(Seq::empty()) is None,
{
    let front = dir + seq![0x2fu8];
    lemma_component_is_settled(front, name);
    assert(name.contains(name[0]));
    assert((front + name).take(front.len() as int) =~= front);
    assert(front + name != seq![SLASH]) by {
        assert((front + name).len() > 1);
    }
    if plain_directory(dir) {
        assert(front.drop_last() =~= dir);
        assert(settled(front) == settled(dir));
    }
    let root = seq![0x2fu8];
    lemma_component_is_settled(root, name);
    assert((root + name).take(1) =~= root);
    assert((root + name).len() > 1);
}

/// The path with another last component stands in the same directory.
pub proof fn law_renamed_stays_in_the_directory(dir: Seq<u8>, name: Seq<u8>, other: Seq<u8>)
    requires
        component(name),
        component(other),
        plain_directory(dir),
    ensures
        renamed(dir + seq![0x2fu8] + name, other) == dir + seq![0x2fu8] + other,
{
    law_base_name_is_the_last_component(dir, name);
    law_parent_is_the_directory(dir, name);
    law_joined_puts_one_slash(dir, other);
    assert(other.contains(other[0]));
}

/// Behind what stands before a dot and with no dot after it, the dot is the last one.
pub proof fn lemma_last_dot(stem: Seq<u8>, ending: Seq<u8>)
    requires
        !ending.contains(0x2e),
    ensures
        last_dot(stem + seq![0x2eu8] + ending) == stem.len(),
    decreases ending.len(),
{
    let name = stem + seq![0x2eu8] + ending;
    if ending.len() > 0 {
        assert(ending.contains(ending.last()));
        assert(name.drop_last() =~= stem + seq![0x2eu8] + ending.drop_last());
        assert(!ending.drop_last().contains(0x2e)) by {
            if ending.drop_last().contains(0x2e) {
                let i = ending.drop_last().index_of(0x2e);
                assert(ending.contains(ending[i]));
            }
        }
        lemma_last_dot(stem, ending.drop_last());
    }
}

/// The last dot is a dot.
pub proof fn lemma_last_dot_is_last(name: Seq<u8>)
    ensures
        -1 <= last_dot(name) < name.len(),
        last_dot(name) >= 0 ==> name[last_dot(name)] == 0x2e,
    decreases name.len(),
{
    if name.len() > 0 && name.last() != DOT {
        lemma_last_dot_is_last(name.drop_last());
    }
}

/// The ending of a file name is what stands behind its last dot, where something stands before that
/// dot; a name without a dot, or with one at its start alone, has none.
pub proof fn law_extension_follows_the_last_dot(dir: Seq<u8>, stem: Seq<u8>, ending: Seq<u8>)
    requires
        component(stem + seq![0x2eu8] + ending),
        !ending.contains(0x2e),
    ensures
        stem.len() > 0 ==> extension(dir + seq![0x2fu8] + (stem + seq![0x2eu8] + ending)) == Some(
            ending,
        ),
        stem.len() == 0 ==> extension(dir + seq![0x2fu8] + (stem + seq![0x2eu8] + ending)) is None,
{
    let name = stem + seq![0x2eu8] + ending;
    law_base_name_is_the_last_component(dir, name);
    lemma_last_dot(stem, ending);
    assert(name.skip(stem.len() as int + 1) =~= ending);
}

/// The directories above a path are its parent, the parent of that, and so on up to where there is
/// none.
pub proof fn law_ancestry_goes_up_to_the_top(path: Seq<u8>)
    ensures
        ancestry(path).len() > 0,
        ancestry(path)[0] == path,
        forall|i: int|
            0 <= i < ancestry(path).len() - 1 ==> parent_path(#[trigger] ancestry(path)[i]) == Some(
                ancestry(path)[i + 1],
            ),
        parent_path(ancestry(path).last()) is None,
    decreases path.len(),
{
    if let Some(parent) = parent_path(path) {
        lemma_parent_is_shorter(path);
        law_ancestry_goes_up_to_the_top(parent);
        let above = ancestry(parent);
        assert(ancestry(path) == seq![path] + above);
        assert forall|i: int| 0 <= i < ancestry(path).len() - 1 implies parent_path(
            #[trigger] ancestry(path)[i],
        ) == Some(ancestry(path)[i + 1]) by {
            if i > 0 {
                assert(ancestry(path)[i] == above[i - 1]);
                assert(ancestry(path)[i + 1] == above[i]);
            }
        }
        assert(ancestry(path).last() == above.last());
    }
}

} // verus!
