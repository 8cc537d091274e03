//! The restart snapshot: which apps the daemon brings back when it starts.
use crate::app;
use crate::atomic_write::{AtomicWrite, AtomicWriteView};
use crate::failure::{self, Failure};
use crate::file_path;
use crate::order::{self, sort_by_name};
use crate::paths::{self, AynurPaths, AynurPathsView};
use crate::text::{self, contains_char, contains_text, decimal, is_blank, Text};
use vstd::prelude::*;
use vstd::utf8::*;

verus! {

/// The version of the snapshot that this program writes and reads.
pub const SAVED_APPS_VERSION: u32 = 1;

/// A restart snapshot.
#[derive(Clone, Debug, PartialEq, Eq)]
pub struct SavedApps {
    /// The version of the format.
    pub version: u32,
    /// When it was made.
    pub saved_at_unix_seconds: u64,
    /// The names of the apps.
    pub app_names: Vec<String>,
}

/// A restart snapshot.
#[verifier::ext_equal]
pub struct SavedAppsView {
    /// The version of the format.
    pub version: u32,
    /// When it was made.
    pub saved_at_unix_seconds: u64,
    /// The names of the apps.
    pub app_names: Seq<Text>,
}

impl View for SavedApps {
    type V = SavedAppsView;

    open spec fn view(&self) -> SavedAppsView {
        SavedAppsView {
            version: self.version,
            saved_at_unix_seconds: self.saved_at_unix_seconds,
            app_names: text::texts(self.app_names@),
        }
    }
}

/// `names` in order.
pub open spec fn sorted(names: Seq<Text>) -> Seq<Text> {
    order::arranged(names, |name: Text| name)
}

/// What is wrong with the first faulty one of `names`.
pub open spec fn names_verdict(names: Seq<Text>) -> Result<(), Seq<Text>>
    decreases names.len(),
{
    if names.len() == 0 {
        Ok(())
    } else if names_verdict(names.drop_last()) is Err {
        names_verdict(names.drop_last())
    } else {
        let name = names.last();
        if text::blank(name) {
            Err(seq!["saved app list contains an empty app name"@])
        } else if name.contains('/') {
            Err(seq!["saved app name '"@ + name + "' must not contain '/'"@])
        } else if names.drop_last().contains(name) {
            Err(seq!["saved app list contains duplicate app name '"@ + name + "'"@])
        } else {
            Ok(())
        }
    }
}

/// What came of reading the snapshot.
#[derive(Clone, Debug, PartialEq, Eq)]
pub enum SnapshotReply {
    /// There is no such file.
    Missing,
    /// The file could not be read.
    Unreadable {
        /// Why.
        cause: String,
    },
    /// The file holds no snapshot.
    Malformed {
        /// Why.
        cause: String,
    },
    /// The file holds this snapshot.
    Parsed {
        /// The snapshot.
        saved_apps: SavedApps,
    },
}

/// What came of reading the snapshot.
pub enum SnapshotReplyView {
    /// There is no such file.
    Missing,
    /// The file could not be read.
    Unreadable(Text),
    /// The file holds no snapshot.
    Malformed(Text),
    /// The file holds this snapshot.
    Parsed(SavedAppsView),
}

impl View for SnapshotReply {
    type V = SnapshotReplyView;

    open spec fn view(&self) -> SnapshotReplyView {
        match self {
            SnapshotReply::Missing => SnapshotReplyView::Missing,
            SnapshotReply::Unreadable { cause } => SnapshotReplyView::Unreadable(cause@),
            SnapshotReply::Malformed { cause } => SnapshotReplyView::Malformed(cause@),
            SnapshotReply::Parsed { saved_apps } => SnapshotReplyView::Parsed(saved_apps@),
        }
    }
}

impl SavedAppsView {
    /// A new snapshot of `names`.
    pub open spec fn of_names(names: Seq<Text>, saved_at_unix_seconds: u64) -> SavedAppsView {
        SavedAppsView {
            version: SAVED_APPS_VERSION,
            saved_at_unix_seconds,
            app_names: sorted(names),
        }
    }

    /// What is wrong with the snapshot.
    pub open spec fn verdict(self) -> Result<(), Seq<Text>> {
        if self.version != SAVED_APPS_VERSION {
            Err(
                seq![
                    "saved app list version "@ + text::decimal_text(self.version as nat)
                        + " is unsupported; expected "@ + text::decimal_text(
                        SAVED_APPS_VERSION as nat,
                    ),
                ],
            )
        } else {
            names_verdict(self.app_names)
        }
    }
}

/// The snapshot that a file gives, where there is one. It was read below `paths`.
pub open spec fn loaded(paths: AynurPathsView, read: SnapshotReplyView) -> Result<
    Option<SavedAppsView>,
    Seq<Text>,
> {
    let shown = file_path::lossy_text(paths.saved_apps());
    match read {
        SnapshotReplyView::Missing => Ok(None),
        SnapshotReplyView::Unreadable(cause) => Err(
            seq!["failed to read saved app list at "@ + shown, cause],
        ),
        SnapshotReplyView::Malformed(cause) => Err(
            seq!["failed to parse saved app list at "@ + shown, cause],
        ),
        SnapshotReplyView::Parsed(saved_apps) => match saved_apps.verdict() {
            Ok(_) => Ok(Some(saved_apps)),
            Err(lines) => Err(lines),
        },
    }
}

/// How a snapshot is written below `paths`.
pub open spec fn snapshot_write(paths: AynurPathsView) -> AtomicWriteView {
    AtomicWriteView {
        target: paths.saved_apps(),
        temporary: file_path::renamed(paths.saved_apps(), encode_utf8(".saved.json.tmp"@)),
        label: "saved app list"@,
        removes_stale: true,
    }
}

/// The snapshot in the outcome of an operation.
pub open spec fn snapshot_outcome(result: Result<Option<SavedApps>, Failure>) -> Result<
    Option<SavedAppsView>,
    Seq<Text>,
> {
    match result {
        Ok(Some(saved_apps)) => Ok(Some(saved_apps@)),
        Ok(None) => Ok(None),
        Err(failure) => Err(failure@),
    }
}

proof fn lemma_fault_stands(names: Seq<Text>, n: int)
    requires
        0 <= n <= names.len(),
        names_verdict(names.take(n)) is Err,
    ensures
        names_verdict(names) == names_verdict(names.take(n)),
    decreases names.len(),
{
    if n == names.len() {
        assert(names.take(n) == names);
    } else {
        assert(names.drop_last().take(n) == names.take(n));
        lemma_fault_stands(names.drop_last(), n);
    }
}

impl SavedApps {
    /// A new snapshot of `app_names`, which it lists in order.
    pub fn from_app_names(app_names: Vec<String>, saved_at_unix_seconds: u64) -> (r: SavedApps)
        ensures
            r@ == SavedAppsView::of_names(text::texts(app_names@), saved_at_unix_seconds),
    {
        proof {
            order::lemma_arranged_of_forms(
                app_names@,
                |s: String| s@,
                order::by_name::<String>(),
                |name: Text| name,
            );
        }
        SavedApps {
            version: SAVED_APPS_VERSION,
            saved_at_unix_seconds,
            app_names: sort_by_name(app_names),
        }
    }

    /// Refuses a snapshot of another version, or with a name that no app can have, or with a name
    /// that occurs twice.
    pub fn validate(&self) -> (r: Result<(), Failure>)
        ensures
            failure::outcome(r) == self@.verdict(),
    {
        if self.version != SAVED_APPS_VERSION {
            return Err(
                Failure::new(
                    "saved app list version ".to_owned().concat(
                        decimal(self.version as u64).as_str(),
                    ).concat(" is unsupported; expected ").concat(
                        decimal(SAVED_APPS_VERSION as u64).as_str(),
                    ),
                ),
            );
        }
        let ghost all = self@.app_names;
        let mut seen: Vec<String> = Vec::new();
        let mut i: usize = 0;
        assert(text::texts(seen@) =~= all.take(0));
        while i < self.app_names.len()
            invariant
                self.version == SAVED_APPS_VERSION,
                all == self@.app_names,
                i <= self.app_names@.len(),
                text::texts(seen@) == all.take(i as int),
                names_verdict(all.take(i as int)) is Ok,
            decreases self.app_names@.len() - i,
        {
            proof {
                assert(all.take(i + 1).drop_last() == all.take(i as int));
                assert(all.take(i + 1).last() == self.app_names@[i as int]@);
                if names_verdict(all.take(i + 1)) is Err {
                    lemma_fault_stands(all, i + 1);
                }
            }
            let name = self.app_names[i].as_str();
            if is_blank(name) {
                return Err(
                    Failure::new("saved app list contains an empty app name".to_owned()),
                );
            }
            if contains_char(name, '/') {
                return Err(
                    Failure::new(
                        "saved app name '".to_owned().concat(name).concat(
                            "' must not contain '/'",
                        ),
                    ),
                );
            }
            if contains_text(&seen, name) {
                return Err(
                    Failure::new(
                        "saved app list contains duplicate app name '".to_owned().concat(
                            name,
                        ).concat("'"),
                    ),
                );
            }
            proof {
                text::lemma_texts_push(seen@, self.app_names@[i as int]);
                assert(all.take(i + 1) == all.take(i as int).push(self.app_names@[i as int]@));
            }
            seen.push(self.app_names[i].clone());
            i = i + 1;
        }
        assert(all.take(all.len() as int) == all);
        Ok(())
    }

    /// The snapshot below `paths`, where there is one. `read` is what reading its file gave.
    pub fn load_optional(paths: &AynurPaths, read: SnapshotReply) -> (r: Result<
        Option<SavedApps>,
        Failure,
    >)
        ensures
            snapshot_outcome(r) == loaded(paths@, read@),
    {
        match read {
            SnapshotReply::Missing => Ok(None),
            SnapshotReply::Unreadable { cause } => Err(
                Failure::because(
                    "failed to read saved app list at ".to_owned().concat(
                        paths.saved_apps_path().display().as_str(),
                    ),
                    cause,
                ),
            ),
            SnapshotReply::Malformed { cause } => Err(
                Failure::because(
                    "failed to parse saved app list at ".to_owned().concat(
                        paths.saved_apps_path().display().as_str(),
                    ),
                    cause,
                ),
            ),
            SnapshotReply::Parsed { saved_apps } => match saved_apps.validate() {
                Ok(_) => Ok(Some(saved_apps)),
                Err(failure) => Err(failure),
            },
        }
    }

    /// The text that is written for a snapshot. `serialized` is what writing it out as text gave.
    pub fn content(serialized: Result<String, String>) -> (r: Result<String, Failure>)
        ensures
            match serialized {
                Ok(content) => r is Ok && r->Ok_0@ == content@,
                Err(cause) => r is Err && r->Err_0@ == seq![
                    "failed to serialize saved app list"@,
                    cause@,
                ],
            },
    {
        match serialized {
            Ok(content) => Ok(content),
            Err(cause) => Err(
                Failure::because("failed to serialize saved app list".to_owned(), cause),
            ),
        }
    }

    /// How a valid snapshot is written below `paths`; a snapshot that is not valid is refused.
    pub fn save(&self, paths: &AynurPaths) -> (r: Result<AtomicWrite, Failure>)
        ensures
            match self@.verdict() {
                Ok(_) => r is Ok && r->Ok_0@ == snapshot_write(paths@),
                Err(lines) => r is Err && r->Err_0@ == lines,
            },
    {
        match self.validate() {
            Ok(_) => {
                let target = paths.saved_apps_path();
                let temporary = target.with_file_name(".saved.json.tmp");
                Ok(
                    AtomicWrite {
                        target,
                        temporary,
                        label: "saved app list".to_owned(),
                        removes_stale: true,
                    },
                )
            },
            Err(failure) => Err(failure),
        }
    }
}

/// Names that are all valid, none of them twice.
pub open spec fn valid_names(names: Seq<Text>) -> bool {
    &&& forall|i: int| 0 <= i < names.len() ==> app::valid_name(#[trigger] names[i])
    &&& names.no_duplicates()
}

/// A snapshot is valid exactly where it is of this version and its names are valid, none of them
/// twice.
pub proof fn law_valid_snapshot(saved_apps: SavedAppsView)
    ensures
        saved_apps.verdict() is Ok <==> saved_apps.version == SAVED_APPS_VERSION && valid_names(
            saved_apps.app_names,
        ),
{
    lemma_valid_names(saved_apps.app_names);
}

proof fn lemma_valid_names(names: Seq<Text>)
    ensures
        names_verdict(names) is Ok <==> valid_names(names),
    decreases names.len(),
{
    if names.len() > 0 {
        let front = names.drop_last();
        lemma_valid_names(front);
        if names_verdict(names) is Ok {
            assert forall|i: int| 0 <= i < names.len() implies app::valid_name(
                #[trigger] names[i],
            ) by {
                if i < front.len() {
                    assert(names[i] == front[i]);
                }
            }
            assert forall|i: int, j: int|
                0 <= i < names.len() && 0 <= j < names.len() && i != j implies names[i]
                != names[j] by {
                if i < front.len() && j < front.len() {
                    assert(front[i] != front[j]);
                } else if i < front.len() {
                    assert(front.contains(front[i]));
                } else {
                    assert(front.contains(front[j]));
                }
            }
        }
        if valid_names(names) {
            assert(valid_names(front)) by {
                assert forall|i: int| 0 <= i < front.len() implies app::valid_name(
                    #[trigger] front[i],
                ) by {
                    assert(names[i] == front[i]);
                }
            }
            assert(app::valid_name(names[names.len() - 1]));
            if front.contains(names.last()) {
                let i = front.index_of(names.last());
                assert(names[i] == names[names.len() - 1]);
            }
        }
    }
}

/// A snapshot lists the names that it was made of in order, and no other names.
pub proof fn law_snapshot_lists_its_names(names: Seq<Text>, saved_at_unix_seconds: u64)
    ensures
        ({
            let listed = SavedAppsView::of_names(names, saved_at_unix_seconds).app_names;
            &&& listed.to_multiset() == names.to_multiset()
            &&& listed.len() == names.len()
            &&& order::ascending(listed, |name: Text| name)
        }),
{
    order::law_arranged_is_permutation(names, |name: Text| name);
    order::law_arranged_is_ascending(names, |name: Text| name);
}

/// The order in which names are handed over does not matter.
pub proof fn law_snapshot_ignores_the_given_order(
    a: Seq<Text>,
    b: Seq<Text>,
    saved_at_unix_seconds: u64,
)
    requires
        a.to_multiset() == b.to_multiset(),
    ensures
        SavedAppsView::of_names(a, saved_at_unix_seconds) == SavedAppsView::of_names(
            b,
            saved_at_unix_seconds,
        ),
{
    broadcast use vstd::seq_lib::group_to_multiset_ensures;

    law_snapshot_lists_its_names(a, saved_at_unix_seconds);
    law_snapshot_lists_its_names(b, saved_at_unix_seconds);
    assert(a.len() == a.to_multiset().len());
    assert(b.len() == b.to_multiset().len());
    lemma_same_names_same_list(sorted(a), sorted(b));
}

proof fn lemma_same_names_same_list(a: Seq<Text>, b: Seq<Text>)
    requires
        order::ascending(a, |name: Text| name),
        order::ascending(b, |name: Text| name),
        a.to_multiset() == b.to_multiset(),
        a.len() == b.len(),
    ensures
        a == b,
    decreases a.len(),
{
    let key = |name: Text| name;
    broadcast use vstd::seq_lib::group_to_multiset_ensures;

    if a.len() > 0 {
        let x = a.last();
        let y = b.last();
        assert(a[a.len() - 1] == x);
        assert(b[b.len() - 1] == y);
        assert(a.contains(x));
        assert(a.to_multiset().contains(x));
        assert(b.to_multiset().contains(x));
        assert(b.contains(x));
        let i = b.index_of(x);
        assert(order::text_le(key(b[i]), key(b[b.len() - 1])));
        assert(b.contains(y));
        assert(b.to_multiset().contains(y));
        assert(a.to_multiset().contains(y));
        assert(a.contains(y));
        let j = a.index_of(y);
        assert(order::text_le(key(a[j]), key(a[a.len() - 1])));
        order::law_text_order_antisymmetric(x, y);
        let (front_a, front_b) = (a.drop_last(), b.drop_last());
        assert(a == front_a.push(x));
        assert(b == front_b.push(y));
        assert(front_a.to_multiset() =~= a.to_multiset().remove(x));
        assert(front_b.to_multiset() =~= b.to_multiset().remove(x));
        assert(order::ascending(front_a, key)) by {
            assert forall|i: int, j: int| 0 <= i <= j < front_a.len() implies order::text_le(
                key(#[trigger] front_a[i]),
                key(#[trigger] front_a[j]),
            ) by {
                assert(order::text_le(key(a[i]), key(a[j])));
            }
        }
        assert(order::ascending(front_b, key)) by {
            assert forall|i: int, j: int| 0 <= i <= j < front_b.len() implies order::text_le(
                key(#[trigger] front_b[i]),
                key(#[trigger] front_b[j]),
            ) by {
                assert(order::text_le(key(b[i]), key(b[j])));
            }
        }
        lemma_same_names_same_list(front_a, front_b);
    }
}

/// A snapshot of valid names, none of them twice, is valid.
pub proof fn law_snapshot_of_valid_names(names: Seq<Text>, saved_at_unix_seconds: u64)
    requires
        valid_names(names),
    ensures
        SavedAppsView::of_names(names, saved_at_unix_seconds).verdict() is Ok,
{
    broadcast use vstd::seq_lib::group_to_multiset_ensures;

    let listed = sorted(names);
    law_snapshot_lists_its_names(names, saved_at_unix_seconds);
    names.lemma_multiset_has_no_duplicates();
    listed.lemma_multiset_has_no_duplicates_conv();
    assert forall|i: int| 0 <= i < listed.len() implies app::valid_name(#[trigger] listed[i]) by {
        assert(listed.contains(listed[i]));
        assert(listed.to_multiset().contains(listed[i]));
        assert(names.contains(listed[i]));
    }
    law_valid_snapshot(SavedAppsView::of_names(names, saved_at_unix_seconds));
}

/// A valid snapshot that was saved, and that the file gives back as it was, is loaded.
pub proof fn law_saved_snapshot_is_loaded(paths: AynurPathsView, saved_apps: SavedAppsView)
    requires
        saved_apps.verdict() is Ok,
    ensures
        loaded(paths, SnapshotReplyView::Parsed(saved_apps)) == Ok::<
            Option<SavedAppsView>,
            Seq<Text>,
        >(Some(saved_apps)),
{
}

/// Whatever the file holds, only a valid snapshot is ever loaded.
pub proof fn law_loaded_snapshot_is_valid(paths: AynurPathsView, read: SnapshotReplyView)
    ensures
        loaded(paths, read) is Ok && loaded(paths, read)->Ok_0 is Some ==> loaded(
            paths,
            read,
        )->Ok_0->0.verdict() is Ok && read == SnapshotReplyView::Parsed(
            loaded(paths, read)->Ok_0->0,
        ),
{
}

/// A snapshot is of version 1, carries the time that it was given, and is accepted exactly where it
/// is of that version and each of its names holds something besides white space, holds no slash and
/// stands in it once.
pub proof fn law_snapshot_form(saved_apps: SavedAppsView, names: Seq<Text>, seconds: u64)
    ensures
        SavedAppsView::of_names(names, seconds).version == 1,
        SavedAppsView::of_names(names, seconds).saved_at_unix_seconds == seconds,
        saved_apps.verdict() is Ok <==> {
            &&& saved_apps.version == 1
            &&& forall|i: int|
                0 <= i < saved_apps.app_names.len() ==> !text::blank(
                    #[trigger] saved_apps.app_names[i],
                ) && !saved_apps.app_names[i].contains('/')
            &&& forall|i: int, j: int|
                0 <= i < j < saved_apps.app_names.len() ==> (#[trigger] saved_apps.app_names[i])
                    != (#[trigger] saved_apps.app_names[j])
        },
        saved_apps.version != 1 ==> saved_apps.verdict() == Err::<(), Seq<Text>>(
            seq![
                "saved app list version "@ + text::decimal_text(saved_apps.version as nat)
                    + " is unsupported; expected "@ + text::decimal_text(1),
            ],
        ),
{
    law_valid_snapshot(saved_apps);
}

/// Of a snapshot with faulty names the first fault is told: that a name is empty, that it holds a
/// slash, or that it stood there before.
pub proof fn law_first_faulty_name_is_told(names: Seq<Text>, i: int)
    requires
        0 <= i < names.len(),
        valid_names(names.take(i)),
        !app::valid_name(names[i]) || names.take(i).contains(names[i]),
    ensures
        names_verdict(names) == Err::<(), Seq<Text>>(
            seq![
                if text::blank(names[i]) {
                    "saved app list contains an empty app name"@
                } else if names[i].contains('/') {
                    "saved app name '"@ + names[i] + "' must not contain '/'"@
                } else {
                    "saved app list contains duplicate app name '"@ + names[i] + "'"@
                },
            ],
        ),
{
    lemma_valid_names(names.take(i));
    let part = names.take(i + 1);
    assert(part.drop_last() =~= names.take(i));
    assert(part.last() == names[i]);
    lemma_fault_stands(names, i + 1);
}

/// What reading the snapshot comes to: no file is no snapshot, a file that cannot be read or holds
/// none is a failure that tells where it is, and a snapshot is accepted or refused as it is.
pub proof fn law_snapshot_is_read(paths: AynurPathsView, read: SnapshotReplyView)
    ensures
        match read {
            SnapshotReplyView::Missing => loaded(paths, read) == Ok::<
                Option<SavedAppsView>,
                Seq<Text>,
            >(None),
            SnapshotReplyView::Unreadable(cause) => loaded(paths, read) == Err::<
                Option<SavedAppsView>,
                Seq<Text>,
            >(
                seq![
                    "failed to read saved app list at "@ + file_path::lossy_text(
                        paths.saved_apps(),
                    ),
                    cause,
                ],
            ),
            SnapshotReplyView::Malformed(cause) => loaded(paths, read) == Err::<
                Option<SavedAppsView>,
                Seq<Text>,
            >(
                seq![
                    "failed to parse saved app list at "@ + file_path::lossy_text(
                        paths.saved_apps(),
                    ),
                    cause,
                ],
            ),
            SnapshotReplyView::Parsed(saved_apps) => loaded(paths, read) is Ok
                <==> saved_apps.verdict() is Ok,
        },
        read is Parsed && loaded(paths, read) is Ok ==> loaded(paths, read)->Ok_0 == Some(
            read->Parsed_0,
        ),
{
}

/// The snapshot is replaced through a hidden file beside it, and one that was left there is removed
/// first.
pub proof fn law_snapshot_is_written_beside(paths: AynurPathsView)
    requires
        file_path::plain_directory(paths.root_dir),
    ensures
        snapshot_write(paths).target == paths.root_dir + seq![0x2fu8] + encode_utf8("saved.json"@),
        snapshot_write(paths).temporary == paths.root_dir + seq![0x2fu8] + encode_utf8(
            ".saved.json.tmp"@,
        ),
        snapshot_write(paths).removes_stale,
{
    reveal_strlit("saved.json");
    reveal_strlit(".saved.json.tmp");
    assert("saved.json"@.len() == 10);
    assert(".saved.json.tmp"@.len() == 15);
    paths::lemma_plain_name("saved.json"@);
    paths::lemma_plain_name(".saved.json.tmp"@);
    file_path::law_joined_puts_one_slash(paths.root_dir, encode_utf8("saved.json"@));
    assert(encode_utf8("saved.json"@).contains(encode_utf8("saved.json"@)[0]));
    file_path::law_renamed_stays_in_the_directory(
        paths.root_dir,
        encode_utf8("saved.json"@),
        encode_utf8(".saved.json.tmp"@),
    );
}

} // verus!
