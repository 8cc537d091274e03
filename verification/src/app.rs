//! The configuration of an app.
use crate::env_file::{self, Environment};
use crate::failure::{self, Failure};
use crate::file_path::{self, FilePath};
use crate::metadata::Metadata;
use crate::paths::{AynurPaths, AynurPathsView};
use crate::text::{self, contains_char, copy_texts, is_blank, same_text, Text};
use vstd::prelude::*;

verus! {

/// How many exits an app may have within a window of time before it counts as crashing.
#[derive(Clone, Copy, Debug, PartialEq, Eq, Structural)]
pub struct RestartPolicy {
    /// The most exits within the window after which the app is still restarted.
    pub max_restarts: u32,
    /// The length of the window.
    pub window_seconds: u64,
}

/// What is known of an app apart from how it runs.
#[derive(Debug, PartialEq, Eq)]
pub struct AppConfig {
    /// The name by which commands refer to the app.
    pub name: String,
    /// The executable.
    pub binary_path: FilePath,
    /// The arguments that it gets.
    pub args: Vec<String>,
    /// Where it runs.
    pub working_directory: FilePath,
    /// The environment in which it runs.
    pub env: Environment,
    /// The file that adds to the environment when it is refreshed.
    pub env_file_path: Option<FilePath>,
    /// When its restarts end.
    pub restart_policy: RestartPolicy,
}

/// What is known of an app apart from how it runs.
#[verifier::ext_equal]
pub struct AppConfigView {
    /// The name by which commands refer to the app.
    pub name: Text,
    /// The executable.
    pub binary_path: Seq<u8>,
    /// The arguments that it gets.
    pub args: Seq<Text>,
    /// Where it runs.
    pub working_directory: Seq<u8>,
    /// The environment in which it runs.
    pub env: Map<Text, Text>,
    /// The file that adds to the environment when it is refreshed.
    pub env_file_path: Option<Seq<u8>>,
    /// When its restarts end.
    pub restart_policy: RestartPolicy,
}

impl View for AppConfig {
    type V = AppConfigView;

    open spec fn view(&self) -> AppConfigView {
        AppConfigView {
            name: self.name@,
            binary_path: self.binary_path@,
            args: text::texts(self.args@),
            working_directory: self.working_directory@,
            env: env_file::text_values(self.env@),
            env_file_path: file_path::path_option(self.env_file_path),
            restart_policy: self.restart_policy,
        }
    }
}

impl Clone for AppConfig {
    fn clone(&self) -> (r: AppConfig)
        ensures
            r@ == self@,
    {
        let env_file_path = match &self.env_file_path {
            Some(path) => Some(path.clone()),
            None => None,
        };
        AppConfig {
            name: self.name.clone(),
            binary_path: self.binary_path.clone(),
            args: copy_texts(&self.args),
            working_directory: self.working_directory.clone(),
            env: self.env.clone(),
            env_file_path,
            restart_policy: self.restart_policy,
        }
    }
}

/// A name that an app can have.
pub open spec fn valid_name(name: Text) -> bool {
    !text::blank(name) && !name.contains('/')
}

/// What is wrong with the name of an app.
pub open spec fn name_verdict(name: Text) -> Result<(), Seq<Text>> {
    if text::blank(name) {
        Err(seq!["app name is empty"@])
    } else if name.contains('/') {
        Err(seq!["app name '"@ + name + "' must not contain '/'"@])
    } else {
        Ok(())
    }
}

/// Refuses a name that no app can have.
pub fn check_name(name: &str) -> (r: Result<(), Failure>)
    ensures
        failure::outcome(r) == name_verdict(name@),
        r is Ok == valid_name(name@),
{
    if is_blank(name) {
        Err(Failure::new("app name is empty".to_owned()))
    } else if contains_char(name, '/') {
        Err(
            Failure::new(
                "app name '".to_owned().concat(name).concat("' must not contain '/'"),
            ),
        )
    } else {
        Ok(())
    }
}

/// What came of writing a configuration to its file.
#[derive(Clone, Debug, PartialEq, Eq)]
pub enum SaveReply {
    /// It could not be written out as text.
    NotSerialized {
        /// Why.
        cause: String,
    },
    /// The file could not be written.
    NotWritten {
        /// Why.
        cause: String,
    },
    /// The file holds it.
    Written,
}

/// What came of reading a configuration from its file.
#[derive(Clone, Debug, PartialEq, Eq)]
pub enum LoadReply {
    /// The file could not be read.
    Unreadable {
        /// Why.
        cause: String,
    },
    /// The file holds no configuration.
    Malformed {
        /// Why.
        cause: String,
    },
    /// The file holds this configuration.
    Parsed {
        /// The configuration.
        config: AppConfig,
    },
}

/// What came of reading a configuration from its file.
pub enum LoadReplyView {
    /// The file could not be read.
    Unreadable(Text),
    /// The file holds no configuration.
    Malformed(Text),
    /// The file holds this configuration.
    Parsed(AppConfigView),
}

impl View for LoadReply {
    type V = LoadReplyView;

    open spec fn view(&self) -> LoadReplyView {
        match self {
            LoadReply::Unreadable { cause } => LoadReplyView::Unreadable(cause@),
            LoadReply::Malformed { cause } => LoadReplyView::Malformed(cause@),
            LoadReply::Parsed { config } => LoadReplyView::Parsed(config@),
        }
    }
}

/// What came of deleting the configuration file at a path.
pub open spec fn deletion_verdict(path: Seq<u8>, deleted: Result<(), Text>) -> Result<
    (),
    Seq<Text>,
> {
    match deleted {
        Ok(_) => Ok(()),
        Err(cause) => Err(
            seq!["failed to delete app config at "@ + file_path::lossy_text(path), cause],
        ),
    }
}

/// The configuration that a file gives to the app called `name`, read at `path`.
pub open spec fn load_verdict(path: Seq<u8>, name: Text, read: LoadReplyView) -> Result<
    AppConfigView,
    Seq<Text>,
> {
    let shown = file_path::lossy_text(path);
    match read {
        LoadReplyView::Unreadable(cause) => Err(
            seq!["failed to read app config at "@ + shown, cause],
        ),
        LoadReplyView::Malformed(cause) => Err(
            seq!["failed to parse app config at "@ + shown, cause],
        ),
        LoadReplyView::Parsed(config) => if config.name != name {
            Err(
                seq![
                    "app config at "@ + shown + " has name '"@ + config.name + "', expected '"@
                        + name + "'"@,
                ],
            )
        } else {
            Ok(config)
        },
    }
}

/// What loading the configuration of the app called `name` comes to.
pub open spec fn loaded(paths: AynurPathsView, name: Text, read: LoadReplyView) -> Result<
    AppConfigView,
    Seq<Text>,
> {
    match name_verdict(name) {
        Err(lines) => Err(lines),
        Ok(_) => load_verdict(paths.app_config(name), name, read),
    }
}

/// The configuration in the outcome of an operation.
pub open spec fn config_outcome(result: Result<AppConfig, Failure>) -> Result<
    AppConfigView,
    Seq<Text>,
> {
    match result {
        Ok(config) => Ok(config@),
        Err(failure) => Err(failure@),
    }
}

impl AppConfigView {
    /// `subject` of this app, `complaint`, then `path`.
    pub open spec fn told(self, subject: Text, complaint: Text, path: Seq<u8>) -> Text {
        subject + " for app '"@ + self.name + "' "@ + complaint + file_path::lossy_text(path)
    }

    /// Whether the app can be started, given what was found of its binary and its working
    /// directory.
    pub open spec fn verdict(
        self,
        binary: Result<Metadata, Text>,
        directory: Result<Metadata, Text>,
    ) -> Result<(), Seq<Text>> {
        if name_verdict(self.name) is Err {
            name_verdict(self.name)
        } else {
            match binary {
                Err(cause) => Err(
                    seq![self.told("binary"@, "does not exist at "@, self.binary_path), cause],
                ),
                Ok(found) => if !found.is_file {
                    Err(seq![self.told("binary"@, "is not a file: "@, self.binary_path)])
                } else if !found.executable() {
                    Err(seq![self.told("binary"@, "is not executable: "@, self.binary_path)])
                } else {
                    match directory {
                        Err(cause) => Err(
                            seq![
                                self.told(
                                    "working directory"@,
                                    "does not exist at "@,
                                    self.working_directory,
                                ),
                                cause,
                            ],
                        ),
                        Ok(found) => if !found.is_dir {
                            Err(
                                seq![
                                    self.told(
                                        "working directory"@,
                                        "is not a directory: "@,
                                        self.working_directory,
                                    ),
                                ],
                            )
                        } else {
                            Ok(())
                        },
                    }
                },
            }
        }
    }

    /// What saving the configuration comes to.
    pub open spec fn saved(self, paths: AynurPathsView, written: SaveReply) -> Result<
        (),
        Seq<Text>,
    > {
        match written {
            SaveReply::NotSerialized { cause } => Err(
                seq!["failed to serialize config for app '"@ + self.name + "'"@, cause@],
            ),
            SaveReply::NotWritten { cause } => Err(
                seq![
                    "failed to write app config at "@ + file_path::lossy_text(
                        paths.app_config(self.name),
                    ),
                    cause@,
                ],
            ),
            SaveReply::Written => Ok(()),
        }
    }
}

impl AppConfig {
    fn tell(&self, subject: &str, complaint: &str, path: &FilePath) -> (r: String)
        ensures
            r@ == self@.told(subject@, complaint@, path@),
    {
        subject.to_owned().concat(" for app '").concat(self.name.as_str()).concat("' ").concat(
            complaint,
        ).concat(path.display().as_str())
    }

    /// Refuses a configuration with which no app can be started. `binary` and `directory` are what
    /// asking the file system for the binary and for the working directory gave.
    pub fn validate(
        &self,
        binary: &Result<Metadata, String>,
        directory: &Result<Metadata, String>,
    ) -> (r: Result<(), Failure>)
        ensures
            failure::outcome(r) == self@.verdict(failure::reply(*binary), failure::reply(*directory)),
    {
        match check_name(self.name.as_str()) {
            Ok(_) => {},
            Err(failure) => {
                return Err(failure);
            },
        }
        match binary {
            Err(cause) => {
                return Err(
                    Failure::because(
                        self.tell("binary", "does not exist at ", &self.binary_path),
                        cause.clone(),
                    ),
                );
            },
            Ok(found) => {
                if !found.is_file {
                    return Err(
                        Failure::new(self.tell("binary", "is not a file: ", &self.binary_path)),
                    );
                }
                if !found.is_executable() {
                    return Err(
                        Failure::new(self.tell("binary", "is not executable: ", &self.binary_path)),
                    );
                }
            },
        }
        match directory {
            Err(cause) => Err(
                Failure::because(
                    self.tell("working directory", "does not exist at ", &self.working_directory),
                    cause.clone(),
                ),
            ),
            Ok(found) => {
                if !found.is_dir {
                    Err(
                        Failure::new(
                            self.tell(
                                "working directory",
                                "is not a directory: ",
                                &self.working_directory,
                            ),
                        ),
                    )
                } else {
                    Ok(())
                }
            },
        }
    }

    /// The outcome of saving the configuration at its path. `written` is what writing it gave.
    pub fn save(&self, paths: &AynurPaths, written: SaveReply) -> (r: Result<(), Failure>)
        ensures
            failure::outcome(r) == self@.saved(paths@, written),
    {
        match written {
            SaveReply::NotSerialized { cause } => Err(
                Failure::because(
                    "failed to serialize config for app '".to_owned().concat(
                        self.name.as_str(),
                    ).concat("'"),
                    cause,
                ),
            ),
            SaveReply::NotWritten { cause } => Err(
                Failure::because(
                    "failed to write app config at ".to_owned().concat(
                        paths.app_config_path(self.name.as_str()).display().as_str(),
                    ),
                    cause,
                ),
            ),
            SaveReply::Written => Ok(()),
        }
    }

    /// The configuration of the app called `name`. `read` is what reading the file at its path
    /// gave.
    pub fn load(paths: &AynurPaths, name: &str, read: LoadReply) -> (r: Result<AppConfig, Failure>)
        ensures
            config_outcome(r) == loaded(paths@, name@, read@),
    {
        match check_name(name) {
            Ok(_) => {},
            Err(failure) => {
                return Err(failure);
            },
        }
        let shown = paths.app_config_path(name).display();
        match read {
            LoadReply::Unreadable { cause } => Err(
                Failure::because(
                    "failed to read app config at ".to_owned().concat(shown.as_str()),
                    cause,
                ),
            ),
            LoadReply::Malformed { cause } => Err(
                Failure::because(
                    "failed to parse app config at ".to_owned().concat(shown.as_str()),
                    cause,
                ),
            ),
            LoadReply::Parsed { config } => {
                if !same_text(config.name.as_str(), name) {
                    Err(
                        Failure::new(
                            "app config at ".to_owned().concat(shown.as_str()).concat(
                                " has name '",
                            ).concat(config.name.as_str()).concat("', expected '").concat(
                                name,
                            ).concat("'"),
                        ),
                    )
                } else {
                    Ok(config)
                }
            },
        }
    }

    /// The outcome of deleting the configuration file of the app called `name`. `deleted` is what
    /// removing the file gave; a file that is not there is not removed and gives no error.
    pub fn delete(paths: &AynurPaths, name: &str, deleted: Result<(), String>) -> (r: Result<
        (),
        Failure,
    >)
        ensures
            failure::outcome(r) == deletion_verdict(
                paths@.app_config(name@),
                failure::reply(deleted),
            ),
    {
        match deleted {
            Ok(_) => Ok(()),
            Err(cause) => Err(
                Failure::because(
                    "failed to delete app config at ".to_owned().concat(
                        paths.app_config_path(name).display().as_str(),
                    ),
                    cause,
                ),
            ),
        }
    }
}

/// A configuration with a valid name that was saved, and that the file gives back as it was, is
/// loaded under its name.
pub proof fn law_saved_config_is_loaded(paths: AynurPathsView, config: AppConfigView)
    requires
        valid_name(config.name),
    ensures
        loaded(paths, config.name, LoadReplyView::Parsed(config)) == Ok::<
            AppConfigView,
            Seq<Text>,
        >(config),
{
}

/// Whatever a file holds, what is loaded under a name is a configuration of that name, and the
/// name is valid.
pub proof fn law_loaded_config_has_its_name(
    paths: AynurPathsView,
    name: Text,
    read: LoadReplyView,
)
    ensures
        loaded(paths, name, read) is Ok ==> valid_name(name) && loaded(
            paths,
            name,
            read,
        )->Ok_0.name == name && read == LoadReplyView::Parsed(loaded(paths, name, read)->Ok_0),
{
}

/// An app can be started exactly where its name is valid, its binary is an executable file and its
/// working directory is a directory.
pub proof fn law_valid_config(
    config: AppConfigView,
    binary: Result<Metadata, Text>,
    directory: Result<Metadata, Text>,
)
    ensures
        config.verdict(binary, directory) is Ok <==> {
            &&& valid_name(config.name)
            &&& binary is Ok
            &&& binary->Ok_0.is_file
            &&& binary->Ok_0.executable()
            &&& directory is Ok
            &&& directory->Ok_0.is_dir
        },
{
}

/// A name can be had by an app exactly where it holds something besides white space and no slash;
/// what is wrong with any other is told.
pub proof fn law_names(name: Text)
    ensures
        valid_name(name) <==> name_verdict(name) is Ok,
        valid_name(name) <==> !name.contains('/') && exists|i: int|
            0 <= i < name.len() && !text::white_space(#[trigger] name[i]),
        (forall|i: int| 0 <= i < name.len() ==> text::white_space(#[trigger] name[i]))
            ==> name_verdict(name) == Err::<(), Seq<Text>>(seq!["app name is empty"@]),
        name.contains('/') && !text::blank(name) ==> name_verdict(name) == Err::<(), Seq<Text>>(
            seq!["app name '"@ + name + "' must not contain '/'"@],
        ),
{
}

/// What keeps an app from being started is told: its name first, then its binary, then its working
/// directory.
pub proof fn law_faults_are_told_in_order(
    config: AppConfigView,
    binary: Result<Metadata, Text>,
    directory: Result<Metadata, Text>,
)
    ensures
        ({
            let verdict = config.verdict(binary, directory);
            let program = file_path::lossy_text(config.binary_path);
            let place = file_path::lossy_text(config.working_directory);
            let runnable = binary is Ok && binary->Ok_0.is_file && binary->Ok_0.mode & 0o111 != 0;
            &&& !valid_name(config.name) ==> verdict == name_verdict(config.name)
            &&& valid_name(config.name) && binary is Err ==> verdict == Err::<(), Seq<Text>>(
                seq![
                    "binary"@ + " for app '"@ + config.name + "' "@ + "does not exist at "@ + program,
                    binary->Err_0,
                ],
            )
            &&& valid_name(config.name) && binary is Ok && !binary->Ok_0.is_file ==> verdict
                == Err::<(), Seq<Text>>(
                seq![
                    "binary"@ + " for app '"@ + config.name + "' "@ + "is not a file: "@ + program,
                ],
            )
            &&& valid_name(config.name) && binary is Ok && binary->Ok_0.is_file
                && binary->Ok_0.mode & 0o111 == 0 ==> verdict == Err::<(), Seq<Text>>(
                seq![
                    "binary"@ + " for app '"@ + config.name + "' "@ + "is not executable: "@
                        + program,
                ],
            )
            &&& valid_name(config.name) && runnable && directory is Err ==> verdict == Err::<
                (),
                Seq<Text>,
            >(
                seq![
                    "working directory"@ + " for app '"@ + config.name + "' "@
                        + "does not exist at "@ + place,
                    directory->Err_0,
                ],
            )
            &&& valid_name(config.name) && runnable && directory is Ok && !directory->Ok_0.is_dir
                ==> verdict == Err::<(), Seq<Text>>(
                seq![
                    "working directory"@ + " for app '"@ + config.name + "' "@
                        + "is not a directory: "@ + place,
                ],
            )
            &&& valid_name(config.name) && runnable && directory is Ok && directory->Ok_0.is_dir
                ==> verdict is Ok
        }),
{
}

/// A configuration is loaded exactly where the name is valid and the file holds a configuration of
/// that name; it is stored exactly where the file was written, and deleted exactly where the file
/// was removed or was not there.
pub proof fn law_configuration_files(
    paths: AynurPathsView,
    name: Text,
    read: LoadReplyView,
    config: AppConfigView,
    written: SaveReply,
    deleted: Result<(), Text>,
)
    ensures
        loaded(paths, name, read) is Ok <==> valid_name(name) && read is Parsed && read->Parsed_0.name
            == name,
        loaded(paths, name, read) is Ok ==> loaded(paths, name, read)->Ok_0 == read->Parsed_0,
        valid_name(name) && read is Parsed && read->Parsed_0.name != name ==> loaded(
            paths,
            name,
            read,
        )->Err_0 == seq![
            "app config at "@ + file_path::lossy_text(paths.app_config(name)) + " has name '"@
                + read->Parsed_0.name + "', expected '"@ + name + "'"@,
        ],
        config.saved(paths, written) is Ok <==> written is Written,
        deletion_verdict(paths.app_config(name), deleted) is Ok <==> deleted is Ok,
{
}

} // verus!
