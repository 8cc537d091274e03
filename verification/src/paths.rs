//! Where aynur keeps its state.
use crate::failure::{self, Failure};
use crate::file_path::{self, FilePath};
use crate::metadata::Metadata;
use crate::text::{self, decimal, Text};
use vstd::prelude::*;
use vstd::utf8::*;

verus! {

/// The permission bits of a private directory: all for the owner, nothing for anyone else.
pub const PRIVATE_MODE: u32 = 0o700;

/// The paths below one state directory.
#[derive(Clone, Debug, PartialEq, Eq)]
pub struct AynurPaths {
    /// The state directory.
    pub root_dir: FilePath,
    /// The directory of the app configurations.
    pub apps_dir: FilePath,
    /// The directory of the app logs.
    pub logs_dir: FilePath,
    /// The socket on which the daemon listens.
    pub socket_path: FilePath,
    /// The file that the daemon locks.
    pub pid_path: FilePath,
}

/// The paths below one state directory.
pub struct AynurPathsView {
    /// The state directory.
    pub root_dir: Seq<u8>,
    /// The directory of the app configurations.
    pub apps_dir: Seq<u8>,
    /// The directory of the app logs.
    pub logs_dir: Seq<u8>,
    /// The socket on which the daemon listens.
    pub socket_path: Seq<u8>,
    /// The file that the daemon locks.
    pub pid_path: Seq<u8>,
}

impl View for AynurPaths {
    type V = AynurPathsView;

    open spec fn view(&self) -> AynurPathsView {
        AynurPathsView {
            root_dir: self.root_dir@,
            apps_dir: self.apps_dir@,
            logs_dir: self.logs_dir@,
            socket_path: self.socket_path@,
            pid_path: self.pid_path@,
        }
    }
}

/// The file called `name` in the directory `dir`.
pub open spec fn file_in(dir: Seq<u8>, name: Text) -> Seq<u8> {
    file_path::joined(dir, encode_utf8(name))
}

impl AynurPathsView {
    /// The paths below the state directory `root`.
    pub open spec fn below(root: Seq<u8>) -> AynurPathsView {
        AynurPathsView {
            root_dir: root,
            apps_dir: file_in(root, "apps"@),
            logs_dir: file_in(root, "logs"@),
            socket_path: file_in(root, "daemon.sock"@),
            pid_path: file_in(root, "daemon.pid"@),
        }
    }

    /// The configuration of the app called `name`.
    pub open spec fn app_config(self, name: Text) -> Seq<u8> {
        file_in(self.apps_dir, name + ".json"@)
    }

    /// The restart snapshot.
    pub open spec fn saved_apps(self) -> Seq<u8> {
        file_in(self.root_dir, "saved.json"@)
    }

    /// The log of the daemon's errors.
    pub open spec fn daemon_error_log(self) -> Seq<u8> {
        file_in(self.root_dir, "daemon.err.log"@)
    }

    /// The log of what the app called `name` writes to its standard output.
    pub open spec fn stdout_log(self, name: Text) -> Seq<u8> {
        file_in(self.logs_dir, name + ".out.log"@)
    }

    /// The log of what the app called `name` writes to its standard error.
    pub open spec fn stderr_log(self, name: Text) -> Seq<u8> {
        file_in(self.logs_dir, name + ".err.log"@)
    }
}

/// `path`, seen from the directory `current` where it is relative.
pub open spec fn absolutized(
    path: Seq<u8>,
    current: Result<Seq<u8>, Text>,
) -> Result<Seq<u8>, Seq<Text>> {
    if file_path::absolute(path) {
        Ok(path)
    } else {
        match current {
            Ok(dir) => Ok(file_path::joined(dir, path)),
            Err(cause) => Err(seq!["failed to read current working directory"@, cause]),
        }
    }
}

/// The path in the outcome of an outside call.
pub open spec fn path_reply(result: Result<FilePath, String>) -> Result<Seq<u8>, Text> {
    match result {
        Ok(path) => Ok(path@),
        Err(cause) => Err(cause@),
    }
}

/// The path in the outcome of an operation.
pub open spec fn path_outcome(result: Result<FilePath, Failure>) -> Result<Seq<u8>, Seq<Text>> {
    match result {
        Ok(path) => Ok(path@),
        Err(failure) => Err(failure@),
    }
}

/// `path`, seen from the current directory where it is relative. `current` is what asking for the
/// current directory gave.
pub fn absolutize_path(path: FilePath, current: &Result<FilePath, String>) -> (r: Result<
    FilePath,
    Failure,
>)
    ensures
        path_outcome(r) == absolutized(path@, path_reply(*current)),
{
    if path.is_absolute() {
        return Ok(path);
    }
    match current {
        Ok(dir) => Ok(dir.join(&path)),
        Err(cause) => Err(
            Failure::because("failed to read current working directory".to_owned(), cause.clone()),
        ),
    }
}

/// The state directory that the environment asks for: `AYNUR_HOME`, else `.aynur` in `HOME`.
pub open spec fn state_directory(
    aynur_home: Option<Seq<u8>>,
    home: Option<Seq<u8>>,
    current: Result<Seq<u8>, Text>,
) -> Result<Seq<u8>, Seq<Text>> {
    match (aynur_home, home) {
        (Some(path), _) => absolutized(path, current),
        (None, Some(dir)) => absolutized(file_in(dir, ".aynur"@), current),
        (None, None) => Err(
            seq!["HOME is not set; set AYNUR_HOME to choose aynur state directory"@],
        ),
    }
}

/// A directory that only its owner may use.
#[derive(Clone, Debug, PartialEq, Eq)]
pub struct PrivateDirectory {
    /// The directory.
    pub path: FilePath,
    /// What it is called in messages.
    pub label: String,
}

/// A directory that only its owner may use.
pub struct PrivateDirectoryView {
    /// The directory.
    pub path: Seq<u8>,
    /// What it is called in messages.
    pub label: Text,
}

impl View for PrivateDirectory {
    type V = PrivateDirectoryView;

    open spec fn view(&self) -> PrivateDirectoryView {
        PrivateDirectoryView { path: self.path@, label: self.label@ }
    }
}

/// What came of creating and then inspecting a directory.
#[derive(Clone, Debug, PartialEq, Eq)]
pub enum DirectoryReply {
    /// It could not be created.
    NotCreated {
        /// Why.
        cause: String,
    },
    /// It could not be inspected.
    NotInspected {
        /// Why.
        cause: String,
    },
    /// It was inspected, without following a symbolic link.
    Inspected {
        /// What the file system says of it.
        metadata: Metadata,
    },
}

impl PrivateDirectoryView {
    /// `before` the label, `between` it and the path, then the path.
    pub open spec fn told(self, before: Text, between: Text) -> Text {
        before + self.label + between + file_path::lossy_text(self.path)
    }

    /// What becomes of the directory, given what was found: the permission bits that it gets, or
    /// why it is refused.
    pub open spec fn verdict(self, found: DirectoryReply, uid: u32) -> Result<u32, Seq<Text>> {
        match found {
            DirectoryReply::NotCreated { cause } => Err(
                seq![self.told("failed to create "@, " at "@), cause@],
            ),
            DirectoryReply::NotInspected { cause } => Err(
                seq![self.told("failed to inspect "@, " at "@), cause@],
            ),
            DirectoryReply::Inspected { metadata } => if metadata.is_symlink {
                Err(seq![self.told(""@, " must not be a symbolic link: "@)])
            } else if !metadata.is_dir {
                Err(seq![self.told(""@, " is not a directory: "@)])
            } else if metadata.uid != uid {
                Err(
                    seq![
                        self.told(""@, " at "@) + " is owned by uid "@ + text::decimal_text(
                            metadata.uid as nat,
                        ) + ", expected uid "@ + text::decimal_text(uid as nat),
                    ],
                )
            } else {
                Ok(PRIVATE_MODE)
            },
        }
    }
}

impl PrivateDirectory {
    /// `before` the label, `between` it and the path, then the path.
    fn tell(&self, before: &str, between: &str) -> (r: String)
        ensures
            r@ == self@.told(before@, between@),
    {
        before.to_owned().concat(self.label.as_str()).concat(between).concat(
            self.path.display().as_str(),
        )
    }

    /// Decides on a directory that was created, or was there already: the permission bits that it
    /// gets, or why it is refused. `uid` is the effective user.
    pub fn ensure_private_directory(&self, found: &DirectoryReply, uid: u32) -> (r: Result<
        u32,
        Failure,
    >)
        ensures
            failure::outcome(r) == self@.verdict(*found, uid),
    {
        match found {
            DirectoryReply::NotCreated { cause } => Err(
                Failure::because(self.tell("failed to create ", " at "), cause.clone()),
            ),
            DirectoryReply::NotInspected { cause } => Err(
                Failure::because(self.tell("failed to inspect ", " at "), cause.clone()),
            ),
            DirectoryReply::Inspected { metadata } => {
                if metadata.is_symlink {
                    Err(Failure::new(self.tell("", " must not be a symbolic link: ")))
                } else if !metadata.is_dir {
                    Err(Failure::new(self.tell("", " is not a directory: ")))
                } else if metadata.uid != uid {
                    Err(
                        Failure::new(
                            self.tell("", " at ").concat(" is owned by uid ").concat(
                                decimal(metadata.uid as u64).as_str(),
                            ).concat(", expected uid ").concat(decimal(uid as u64).as_str()),
                        ),
                    )
                } else {
                    Ok(PRIVATE_MODE)
                }
            },
        }
    }

    /// The outcome of setting the permission bits of the directory.
    pub fn restricted(&self, set: Result<(), String>) -> (r: Result<(), Failure>)
        ensures
            failure::outcome(r) == match set {
                Ok(_) => Ok(()),
                Err(cause) => Err(
                    seq![self@.told("failed to restrict permissions for "@, " at "@), cause@],
                ),
            },
    {
        match set {
            Ok(_) => Ok(()),
            Err(cause) => Err(
                Failure::because(
                    self.tell("failed to restrict permissions for ", " at "),
                    cause,
                ),
            ),
        }
    }
}

impl AynurPaths {
    /// The paths below the state directory `root_dir`.
    pub fn below(root_dir: FilePath) -> (r: AynurPaths)
        ensures
            r@ == AynurPathsView::below(root_dir@),
    {
        AynurPaths {
            apps_dir: root_dir.join_text("apps"),
            logs_dir: root_dir.join_text("logs"),
            socket_path: root_dir.join_text("daemon.sock"),
            pid_path: root_dir.join_text("daemon.pid"),
            root_dir,
        }
    }

    /// The paths that the environment asks for. `aynur_home` and `home` are the variables
    /// `AYNUR_HOME` and `HOME`; `current` is what asking for the current directory gave.
    pub fn from_env(
        aynur_home: Option<FilePath>,
        home: Option<FilePath>,
        current: &Result<FilePath, String>,
    ) -> (r: Result<AynurPaths, Failure>)
        ensures
            match state_directory(
                file_path::path_option(aynur_home),
                file_path::path_option(home),
                path_reply(*current),
            ) {
                Ok(root) => r is Ok && r->Ok_0@ == AynurPathsView::below(root),
                Err(lines) => r is Err && r->Err_0@ == lines,
            },
    {
        let root_dir = match aynur_home {
            Some(path) => path,
            None => match home {
                Some(dir) => dir.join_text(".aynur"),
                None => {
                    return Err(
                        Failure::new(
                            "HOME is not set; set AYNUR_HOME to choose aynur state directory".to_owned(),
                        ),
                    );
                },
            },
        };
        match absolutize_path(root_dir, current) {
            Ok(root_dir) => Ok(AynurPaths::below(root_dir)),
            Err(failure) => Err(failure),
        }
    }

    /// The directories that have to be there, in the order in which they are made.
    pub fn ensure(&self) -> (r: Vec<PrivateDirectory>)
        ensures
            r@.map_values(|d: PrivateDirectory| d@) == seq![
                PrivateDirectoryView { path: self@.root_dir, label: "AYNUR_HOME"@ },
                PrivateDirectoryView { path: self@.apps_dir, label: "aynur apps directory"@ },
                PrivateDirectoryView { path: self@.logs_dir, label: "aynur logs directory"@ },
            ],
    {
        let mut directories: Vec<PrivateDirectory> = Vec::new();
        directories.push(
            PrivateDirectory { path: self.root_dir.clone(), label: "AYNUR_HOME".to_owned() },
        );
        directories.push(
            PrivateDirectory {
                path: self.apps_dir.clone(),
                label: "aynur apps directory".to_owned(),
            },
        );
        directories.push(
            PrivateDirectory {
                path: self.logs_dir.clone(),
                label: "aynur logs directory".to_owned(),
            },
        );
        directories
    }

    /// The configuration of the app called `name`.
    pub fn app_config_path(&self, name: &str) -> (r: FilePath)
        ensures
            r@ == self@.app_config(name@),
    {
        self.apps_dir.join_text(name.to_owned().concat(".json").as_str())
    }

    /// The restart snapshot.
    pub fn saved_apps_path(&self) -> (r: FilePath)
        ensures
            r@ == self@.saved_apps(),
    {
        self.root_dir.join_text("saved.json")
    }

    /// The log of the daemon's errors.
    pub fn daemon_error_log_path(&self) -> (r: FilePath)
        ensures
            r@ == self@.daemon_error_log(),
    {
        self.root_dir.join_text("daemon.err.log")
    }

    /// The log of what the app called `name` writes to its standard output.
    pub fn stdout_log_path(&self, name: &str) -> (r: FilePath)
        ensures
            r@ == self@.stdout_log(name@),
    {
        self.logs_dir.join_text(name.to_owned().concat(".out.log").as_str())
    }

    /// The log of what the app called `name` writes to its standard error.
    pub fn stderr_log_path(&self, name: &str) -> (r: FilePath)
        ensures
            r@ == self@.stderr_log(name@),
    {
        self.logs_dir.join_text(name.to_owned().concat(".err.log").as_str())
    }
}

proof fn lemma_relative(text: Text)
    requires
        text.len() > 0,
        text[0] != '/',
    ensures
        !file_path::absolute(encode_utf8(text)),
{
    encode_utf8_first_scalar(text);
    let bytes = encode_utf8(text);
    let first = bytes[0];
    if first == file_path::SLASH {
        assert(is_leading_byte_width_1(first) && codepoint_width_1(first) == 0x2f) by (bit_vector)
            requires
                first == 0x2f,
        ;
        let c = text[0];
        char_u32_cast(c, c as u32);
        assert(c as u32 == '/' as u32);
        char_u32_cast('/', '/' as u32);
    }
}

/// Files of different names in one directory are different files.
pub proof fn law_files_are_apart(dir: Seq<u8>, a: Text, b: Text)
    requires
        a.len() > 0,
        b.len() > 0,
        a[0] != '/',
        b[0] != '/',
        a != b,
    ensures
        file_in(dir, a) != file_in(dir, b),
{
    lemma_relative(a);
    lemma_relative(b);
    encode_utf8_decode_utf8(a);
    encode_utf8_decode_utf8(b);
    let base = if dir.len() == 0 || dir.last() == file_path::SLASH {
        dir
    } else {
        dir.push(file_path::SLASH)
    };
    let left = encode_utf8(a);
    let right = encode_utf8(b);
    if file_in(dir, a) == file_in(dir, b) {
        assert((base + left).skip(base.len() as int) == left);
        assert((base + right).skip(base.len() as int) == right);
    }
}

proof fn lemma_same_ending(a: Text, b: Text, ending: Text)
    requires
        a != b,
    ensures
        a + ending != b + ending,
{
    if a + ending == b + ending {
        assert((a + ending).len() == a.len() + ending.len());
        assert((b + ending).len() == b.len() + ending.len());
        assert((a + ending).take(a.len() as int) == a);
        assert((b + ending).take(b.len() as int) == b);
    }
}

/// The files of an app are its own: no other app has the same configuration or the same log, and
/// what an app writes to its two streams goes to two files.
pub proof fn law_app_files_are_apart(paths: AynurPathsView, a: Text, b: Text)
    requires
        a.len() > 0,
        b.len() > 0,
        a[0] != '/',
        b[0] != '/',
    ensures
        a != b ==> paths.app_config(a) != paths.app_config(b),
        a != b ==> paths.stdout_log(a) != paths.stdout_log(b),
        a != b ==> paths.stderr_log(a) != paths.stderr_log(b),
        paths.stdout_log(a) != paths.stderr_log(b),
{
    reveal_strlit(".json");
    reveal_strlit(".out.log");
    reveal_strlit(".err.log");
    let (x, y) = (a + ".out.log"@, b + ".err.log"@);
    if x == y {
        assert(x[x.len() - 7] == 'o');
        assert(y[y.len() - 7] == 'e');
    }
    law_files_are_apart(paths.logs_dir, x, y);
    if a != b {
        lemma_same_ending(a, b, ".json"@);
        lemma_same_ending(a, b, ".out.log"@);
        lemma_same_ending(a, b, ".err.log"@);
        law_files_are_apart(paths.apps_dir, a + ".json"@, b + ".json"@);
        law_files_are_apart(paths.logs_dir, a + ".out.log"@, b + ".out.log"@);
        law_files_are_apart(paths.logs_dir, a + ".err.log"@, b + ".err.log"@);
    }
}

/// The state directory is an absolute path, and so is every path below it, wherever the current
/// directory is one.
pub proof fn law_state_paths_are_absolute(
    aynur_home: Option<Seq<u8>>,
    home: Option<Seq<u8>>,
    current: Result<Seq<u8>, Text>,
)
    requires
        state_directory(aynur_home, home, current) is Ok,
        current is Ok ==> file_path::absolute(current->Ok_0),
    ensures
        ({
            let paths = AynurPathsView::below(state_directory(aynur_home, home, current)->Ok_0);
            &&& file_path::absolute(paths.root_dir)
            &&& file_path::absolute(paths.apps_dir)
            &&& file_path::absolute(paths.logs_dir)
            &&& file_path::absolute(paths.socket_path)
            &&& file_path::absolute(paths.pid_path)
        }),
{
    let root = state_directory(aynur_home, home, current)->Ok_0;
    assert(file_path::absolute(root)) by {
        if current is Ok {
            if let Some(path) = aynur_home {
                file_path::law_joined_stays_absolute(current->Ok_0, path);
            } else {
                file_path::law_joined_stays_absolute(
                    current->Ok_0,
                    file_in(home->0, ".aynur"@),
                );
            }
        }
    }
    file_path::law_joined_stays_absolute(root, encode_utf8("apps"@));
    file_path::law_joined_stays_absolute(root, encode_utf8("logs"@));
    file_path::law_joined_stays_absolute(root, encode_utf8("daemon.sock"@));
    file_path::law_joined_stays_absolute(root, encode_utf8("daemon.pid"@));
}

/// A directory is accepted exactly where it is a real directory of the current user, and it is
/// then closed to everyone else.
pub proof fn law_only_own_directories_are_used(
    directory: PrivateDirectoryView,
    found: DirectoryReply,
    uid: u32,
)
    ensures
        directory.verdict(found, uid) is Ok <==> {
            &&& found is Inspected
            &&& !found->metadata.is_symlink
            &&& found->metadata.is_dir
            &&& found->metadata.uid == uid
        },
        directory.verdict(found, uid) is Ok ==> directory.verdict(found, uid)->Ok_0 == 0o700,
{
}

/// Where everything is: the configurations, the logs, the socket and the locked file stand below the
/// state directory, and each app has its configuration and its logs under its name.
pub proof fn law_layout(root: Seq<u8>, paths: AynurPathsView, name: Text)
    requires
        root.len() > 0,
        root.last() != 0x2f,
        paths.root_dir.len() > 0,
        paths.root_dir.last() != 0x2f,
        paths.apps_dir.len() > 0,
        paths.apps_dir.last() != 0x2f,
        paths.logs_dir.len() > 0,
        paths.logs_dir.last() != 0x2f,
        name.len() > 0,
        name[0] != '/',
    ensures
        AynurPathsView::below(root).root_dir == root,
        AynurPathsView::below(root).apps_dir == root + seq![0x2fu8] + encode_utf8("apps"@),
        AynurPathsView::below(root).logs_dir == root + seq![0x2fu8] + encode_utf8("logs"@),
        AynurPathsView::below(root).socket_path == root + seq![0x2fu8] + encode_utf8(
            "daemon.sock"@,
        ),
        AynurPathsView::below(root).pid_path == root + seq![0x2fu8] + encode_utf8("daemon.pid"@),
        paths.saved_apps() == paths.root_dir + seq![0x2fu8] + encode_utf8("saved.json"@),
        paths.daemon_error_log() == paths.root_dir + seq![0x2fu8] + encode_utf8("daemon.err.log"@),
        paths.app_config(name) == paths.apps_dir + seq![0x2fu8] + encode_utf8(name + ".json"@),
        paths.stdout_log(name) == paths.logs_dir + seq![0x2fu8] + encode_utf8(name + ".out.log"@),
        paths.stderr_log(name) == paths.logs_dir + seq![0x2fu8] + encode_utf8(name + ".err.log"@),
{
    reveal_strlit("apps");
    reveal_strlit("logs");
    reveal_strlit("daemon.sock");
    reveal_strlit("daemon.pid");
    reveal_strlit("saved.json");
    reveal_strlit("daemon.err.log");
    reveal_strlit(".json");
    reveal_strlit(".out.log");
    reveal_strlit(".err.log");
    lemma_in_directory(root, "apps"@);
    lemma_in_directory(root, "logs"@);
    lemma_in_directory(root, "daemon.sock"@);
    lemma_in_directory(root, "daemon.pid"@);
    lemma_in_directory(paths.root_dir, "saved.json"@);
    lemma_in_directory(paths.root_dir, "daemon.err.log"@);
    lemma_in_directory(paths.apps_dir, name + ".json"@);
    lemma_in_directory(paths.logs_dir, name + ".out.log"@);
    lemma_in_directory(paths.logs_dir, name + ".err.log"@);
}

proof fn lemma_in_directory(dir: Seq<u8>, name: Text)
    requires
        dir.len() > 0,
        dir.last() != 0x2f,
        name.len() > 0,
        name[0] != '/',
    ensures
        file_in(dir, name) == dir + seq![0x2fu8] + encode_utf8(name),
{
    lemma_relative(name);
    file_path::law_joined_puts_one_slash(dir, encode_utf8(name));
}

/// The state directory is the one that is asked for; else it is `.aynur` in the home directory; and
/// without either there is none. A relative one is seen from the current directory.
pub proof fn law_state_directory(
    aynur_home: Option<Seq<u8>>,
    home: Option<Seq<u8>>,
    current: Result<Seq<u8>, Text>,
)
    ensures
        ({
            let chosen = state_directory(aynur_home, home, current);
            &&& aynur_home is Some && aynur_home->0.len() > 0 && aynur_home->0[0] == 0x2f
                ==> chosen == Ok::<Seq<u8>, Seq<Text>>(aynur_home->0)
            &&& aynur_home is Some && (aynur_home->0.len() == 0 || aynur_home->0[0] != 0x2f)
                && current is Ok && current->Ok_0.len() > 0 && current->Ok_0.last() != 0x2f
                ==> chosen == Ok::<Seq<u8>, Seq<Text>>(
                current->Ok_0 + seq![0x2fu8] + aynur_home->0,
            )
            &&& aynur_home is None && home is Some && home->0.len() > 0 && home->0[0] == 0x2f
                && home->0.last() != 0x2f ==> chosen == Ok::<Seq<u8>, Seq<Text>>(
                home->0 + seq![0x2fu8] + encode_utf8(".aynur"@),
            )
            &&& aynur_home is None && home is None ==> chosen is Err
        }),
{
    reveal_strlit(".aynur");
    if let Some(path) = aynur_home {
        if current is Ok {
            file_path::law_joined_puts_one_slash(current->Ok_0, path);
        }
    } else if let Some(dir) = home {
        if dir.len() > 0 && dir[0] == 0x2f && dir.last() != 0x2f {
            lemma_in_directory(dir, ".aynur"@);
            assert(file_in(dir, ".aynur"@)[0] == dir[0]);
        }
    }
}

/// An absolute path stays as it is, and a relative one is seen from the current directory, which has
/// to be known for that.
pub proof fn law_paths_are_seen_from_the_current_directory(
    path: Seq<u8>,
    current: Result<Seq<u8>, Text>,
)
    ensures
        path.len() > 0 && path[0] == 0x2f ==> absolutized(path, current) == Ok::<
            Seq<u8>,
            Seq<Text>,
        >(path),
        (path.len() == 0 || path[0] != 0x2f) && current is Ok && current->Ok_0.len() > 0
            && current->Ok_0.last() != 0x2f ==> absolutized(path, current) == Ok::<
            Seq<u8>,
            Seq<Text>,
        >(current->Ok_0 + seq![0x2fu8] + path),
        (path.len() == 0 || path[0] != 0x2f) && current is Ok && current->Ok_0.len() > 0
            && current->Ok_0.last() == 0x2f ==> absolutized(path, current) == Ok::<
            Seq<u8>,
            Seq<Text>,
        >(current->Ok_0 + path),
        (path.len() == 0 || path[0] != 0x2f) && current is Err ==> absolutized(path, current)
            == Err::<Seq<u8>, Seq<Text>>(
            seq!["failed to read current working directory"@, current->Err_0],
        ),
{
    if current is Ok {
        file_path::law_joined_puts_one_slash(current->Ok_0, path);
    }
}

/// A plain text that holds no slash and is neither `.` nor `..` can be the name of a file.
pub proof fn lemma_plain_name(name: Text)
    requires
        name.len() > 0,
        is_ascii_chars(name),
        !name.contains('/'),
        name != seq!['.'],
        name != seq!['.', '.'],
    ensures
        file_path::component(encode_utf8(name)),
{
    let bytes = encode_utf8(name);
    is_ascii_chars_encode_utf8(name);
    if bytes.contains(0x2f) {
        let i = bytes.index_of(0x2f);
        assert(name[i] as u32 == 0x2f);
        assert(name.contains(name[i]));
    }
    if bytes == seq![0x2eu8] {
        assert(bytes[0] == 0x2e);
        assert(name =~= seq!['.']);
    }
    if bytes == seq![0x2eu8, 0x2eu8] {
        assert(bytes[0] == 0x2e && bytes[1] == 0x2e);
        assert(name =~= seq!['.', '.']);
    }
}

} // verus!
