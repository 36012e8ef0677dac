use vstd::prelude::*;

verus! {

/// The path that `std::path::Path::join` makes of `base` and `part`.
pub uninterp spec fn joined_path(base: Seq<char>, part: Seq<char>) -> Seq<char>;

/// Relies on `std::path::Path::join`: the result depends on the two paths
/// alone (and on the target's separator, fixed at build time).
#[verifier::external_body]
fn join_path(base: &str, part: &str) -> (r: String)
    ensures
        r@ == joined_path(base@, part@),
{
    std::path::Path::new(base).join(part).to_string_lossy().into_owned()
}

/// Relies on `dirs::home_dir`: the current user's home directory, read from
/// the environment or the user database. Nothing is promised of it.
#[verifier::external_body]
fn home_dir() -> (r: Option<String>) {
    dirs::home_dir().map(|p| p.to_string_lossy().into_owned())
}

/// The cloud documents folder, relative to the home directory.
pub open spec fn cloud_docs_rel() -> Seq<char> {
    "Library/Mobile Documents/com~apple~CloudDocs"@
}

/// The application's own folder inside the cloud documents folder.
pub open spec fn app_folder() -> Seq<char> {
    "Subly"@
}

/// The cloud documents folder of the user whose home is `home`.
pub open spec fn cloud_root(home: Seq<char>) -> Seq<char> {
    joined_path(home, cloud_docs_rel())
}

/// The container: the application's folder in the cloud documents folder.
pub open spec fn container(home: Seq<char>) -> Seq<char> {
    joined_path(cloud_root(home), app_folder())
}

/// Where the document `filename` lives.
pub open spec fn document(home: Seq<char>, filename: Seq<char>) -> Seq<char> {
    joined_path(container(home), filename)
}

/// Error text on platforms without the cloud folder convention.
pub open spec fn unsupported_text() -> Seq<char> {
    "iCloud not available on this platform"@
}

/// Error text when the container cannot be resolved.
pub open spec fn unavailable_text() -> Seq<char> {
    "iCloud container not available"@
}

/// The three operations of the document store.
#[derive(Clone, Copy, Debug, PartialEq, Eq, Structural)]
pub enum Request {
    /// Report where the container is.
    ContainerUrl,
    /// Create or overwrite a document.
    Write,
    /// Read a document.
    Read,
}

/// The filesystem work a task waits for.
#[derive(Clone, Copy, Debug, PartialEq, Eq, Structural)]
pub enum Stage {
    /// Look up the home directory (`look_up_home` or `on_home`).
    LookUpHome,
    /// Does the cloud documents folder exist? (`on_exists`)
    CheckCloudRoot,
    /// Does the container exist? (`on_exists`)
    CheckAppDir,
    /// Create the container with its parents (`on_created`).
    CreateAppDir,
    /// Does the document exist? (`on_exists`)
    CheckDocument,
    /// Write the contents to the document (`on_written`).
    WriteDocument,
    /// Read the document (`on_read`).
    ReadDocument,
    /// Nothing: the outcome is known.
    Done,
}

/// How an operation ended.
#[derive(Clone, Debug)]
pub enum Outcome {
    /// Not ended yet.
    Pending,
    /// The platform has no cloud folder convention.
    Unsupported,
    /// The container could not be resolved.
    Unavailable,
    /// The container was resolved.
    Container,
    /// The document was written.
    Written,
    /// The container holds no such document.
    Absent,
    /// The document was read and holds this text.
    Contents(String),
    /// The filesystem reported this error.
    IoError(String),
}

/// One operation on the document store.
///
/// Availability is derived afresh for each operation: the home directory, the
/// cloud documents folder and the container are probed each time. The caller
/// performs the filesystem work that `stage` names on `path()`, and hands the
/// result back through the matching `on_*` method.
#[derive(Clone, Debug)]
pub struct DocumentTask {
    pub request: Request,
    pub filename: String,
    pub contents: String,
    pub home: Option<String>,
    pub stage: Stage,
    pub outcome: Outcome,
}

/// A new task; on an unsupported platform it ends at once.
pub open spec fn started(supported: bool, request: Request, filename: String, contents: String) -> DocumentTask {
    DocumentTask {
        request,
        filename,
        contents,
        home: None,
        stage: if supported { Stage::LookUpHome } else { Stage::Done },
        outcome: if supported { Outcome::Pending } else { Outcome::Unsupported },
    }
}

impl DocumentTask {
    /// The task with its outcome known.
    pub open spec fn ended(self, outcome: Outcome) -> DocumentTask {
        DocumentTask { stage: Stage::Done, outcome, ..self }
    }

    /// The task once the container is known to exist.
    pub open spec fn container_ready(self) -> DocumentTask {
        match self.request {
            Request::ContainerUrl => self.ended(Outcome::Container),
            Request::Write => DocumentTask { stage: Stage::WriteDocument, ..self },
            Request::Read => DocumentTask { stage: Stage::CheckDocument, ..self },
        }
    }

    /// The task after the home directory lookup gave `home`.
    pub open spec fn after_home(self, home: Option<String>) -> DocumentTask {
        match home {
            None => self.ended(Outcome::Unavailable),
            Some(_) => DocumentTask { home, stage: Stage::CheckCloudRoot, ..self },
        }
    }

    /// The task after learning whether the path of its stage exists.
    pub open spec fn after_exists(self, exists: bool) -> DocumentTask {
        match self.stage {
            Stage::CheckCloudRoot => if exists {
                DocumentTask { stage: Stage::CheckAppDir, ..self }
            } else {
                self.ended(Outcome::Unavailable)
            },
            Stage::CheckAppDir => if exists {
                self.container_ready()
            } else {
                DocumentTask { stage: Stage::CreateAppDir, ..self }
            },
            Stage::CheckDocument => if exists {
                DocumentTask { stage: Stage::ReadDocument, ..self }
            } else {
                self.ended(Outcome::Absent)
            },
            _ => self,
        }
    }

    /// The task after trying to create the container.
    pub open spec fn after_created(self, created: bool) -> DocumentTask {
        if created {
            self.container_ready()
        } else {
            self.ended(Outcome::Unavailable)
        }
    }

    /// The task after writing the document.
    pub open spec fn after_written(self, result: Result<(), String>) -> DocumentTask {
        match result {
            Ok(()) => self.ended(Outcome::Written),
            Err(e) => self.ended(Outcome::IoError(e)),
        }
    }

    /// The task after reading the document.
    pub open spec fn after_read(self, result: Result<String, String>) -> DocumentTask {
        match result {
            Ok(text) => self.ended(Outcome::Contents(text)),
            Err(e) => self.ended(Outcome::IoError(e)),
        }
    }

    /// The stage and the outcome agree, each stage belongs to the request,
    /// and the home directory is known wherever a path is needed.
    pub open spec fn wf(self) -> bool {
        &&& (self.stage == Stage::Done) == !(self.outcome is Pending)
        &&& (self.stage != Stage::LookUpHome && self.stage != Stage::Done) ==> self.home is Some
        &&& self.outcome is Container ==> self.home is Some && self.request == Request::ContainerUrl
        &&& (self.stage == Stage::WriteDocument || self.outcome is Written) ==> self.request == Request::Write
        &&& (self.outcome is Absent || self.outcome is Contents) ==> self.request == Request::Read
        &&& (self.stage == Stage::CheckDocument || self.stage == Stage::ReadDocument) ==> self.request
            == Request::Read
    }

    /// The path that the work of the current stage is about.
    pub open spec fn stage_path(self) -> Seq<char> {
        let home = self.home->Some_0@;
        match self.stage {
            Stage::CheckCloudRoot => cloud_root(home),
            Stage::CheckAppDir | Stage::CreateAppDir => container(home),
            _ => document(home, self.filename@),
        }
    }

    /// Starts an operation. `supported` says whether the platform has the
    /// cloud folder convention at all; without it nothing is probed.
    pub fn start(supported: bool, request: Request, filename: String, contents: String) -> (r: DocumentTask)
        ensures
            r == started(supported, request, filename, contents),
            r.wf(),
    {
        if supported {
            DocumentTask { request, filename, contents, home: None, stage: Stage::LookUpHome, outcome: Outcome::Pending }
        } else {
            DocumentTask {
                request,
                filename,
                contents,
                home: None,
                stage: Stage::Done,
                outcome: Outcome::Unsupported,
            }
        }
    }

    /// The path that the work of the current stage is about.
    pub fn path(&self) -> (r: String)
        requires
            self.wf(),
            self.stage != Stage::LookUpHome,
            self.stage != Stage::Done,
        ensures
            r@ == self.stage_path(),
    {
        let home: &str = match &self.home {
            Some(h) => h.as_str(),
            None => "",
        };
        let root = join_path(home, "Library/Mobile Documents/com~apple~CloudDocs");
        match self.stage {
            Stage::CheckCloudRoot => root,
            Stage::CheckAppDir | Stage::CreateAppDir => join_path(root.as_str(), "Subly"),
            _ => {
                let dir = join_path(root.as_str(), "Subly");
                join_path(dir.as_str(), self.filename.as_str())
            },
        }
    }

    /// The answer to a container request: the container's path if it was
    /// resolved, else nothing.
    pub fn url_reply(&self) -> (r: Option<String>)
        requires
            self.wf(),
            self.stage == Stage::Done,
        ensures
            match self.outcome {
                Outcome::Container => r is Some && r->Some_0@ == container(self.home->Some_0@),
                _ => r is None,
            },
    {
        match self.outcome {
            Outcome::Container => {
                let home: &str = match &self.home {
                    Some(h) => h.as_str(),
                    None => "",
                };
                let root = join_path(home, "Library/Mobile Documents/com~apple~CloudDocs");
                Some(join_path(root.as_str(), "Subly"))
            },
            _ => None,
        }
    }

    /// The answer to a write request.
    pub fn write_reply(&self) -> (r: Result<(), String>)
        requires
            self.wf(),
            self.stage == Stage::Done,
            self.request == Request::Write,
        ensures
            match self.outcome {
                Outcome::Written => r is Ok,
                Outcome::Unsupported => r is Err && r->Err_0@ == unsupported_text(),
                Outcome::IoError(e) => r is Err && r->Err_0@ == e@,
                _ => r is Err && r->Err_0@ == unavailable_text(),
            },
    {
        match &self.outcome {
            Outcome::Written => Ok(()),
            Outcome::Unsupported => Err("iCloud not available on this platform".to_owned()),
            Outcome::IoError(e) => Err(e.clone()),
            _ => Err("iCloud container not available".to_owned()),
        }
    }

    /// The answer to a read request: the text, "no document", or an error.
    pub fn read_reply(&self) -> (r: Result<Option<String>, String>)
        requires
            self.wf(),
            self.stage == Stage::Done,
            self.request == Request::Read,
        ensures
            match self.outcome {
                Outcome::Absent => r == Ok::<Option<String>, String>(None),
                Outcome::Contents(text) => r is Ok && r->Ok_0 is Some && r->Ok_0->Some_0@ == text@,
                Outcome::Unsupported => r is Err && r->Err_0@ == unsupported_text(),
                Outcome::IoError(e) => r is Err && r->Err_0@ == e@,
                _ => r is Err && r->Err_0@ == unavailable_text(),
            },
    {
        match &self.outcome {
            Outcome::Absent => Ok(None),
            Outcome::Contents(text) => Ok(Some(text.clone())),
            Outcome::Unsupported => Err("iCloud not available on this platform".to_owned()),
            Outcome::IoError(e) => Err(e.clone()),
            _ => Err("iCloud container not available".to_owned()),
        }
    }

    fn end(&mut self, outcome: Outcome)
        ensures
            *final(self) == old(self).ended(outcome),
    {
        self.stage = Stage::Done;
        self.outcome = outcome;
    }

    fn reach_container(&mut self)
        ensures
            *final(self) == old(self).container_ready(),
    {
        match self.request {
            Request::ContainerUrl => self.end(Outcome::Container),
            Request::Write => self.stage = Stage::WriteDocument,
            Request::Read => self.stage = Stage::CheckDocument,
        }
    }

    /// Hands over the home directory lookup.
    pub fn on_home(&mut self, home: Option<String>)
        requires
            old(self).wf(),
            old(self).stage == Stage::LookUpHome,
        ensures
            *final(self) == old(self).after_home(home),
            final(self).wf(),
    {
        match home {
            None => self.end(Outcome::Unavailable),
            Some(h) => {
                self.home = Some(h);
                self.stage = Stage::CheckCloudRoot;
            },
        }
    }

    /// Looks up the home directory itself and goes on as `on_home` would.
    pub fn look_up_home(&mut self)
        requires
            old(self).wf(),
            old(self).stage == Stage::LookUpHome,
        ensures
            exists|home: Option<String>| *final(self) == old(self).after_home(home),
            final(self).wf(),
    {
        let home = home_dir();
        self.on_home(home);
    }

    /// Hands over whether the path of the current stage exists.
    pub fn on_exists(&mut self, exists: bool)
        requires
            old(self).wf(),
            old(self).stage == Stage::CheckCloudRoot || old(self).stage == Stage::CheckAppDir
                || old(self).stage == Stage::CheckDocument,
        ensures
            *final(self) == old(self).after_exists(exists),
            final(self).wf(),
    {
        match self.stage {
            Stage::CheckCloudRoot => {
                if exists {
                    self.stage = Stage::CheckAppDir;
                } else {
                    self.end(Outcome::Unavailable);
                }
            },
            Stage::CheckAppDir => {
                if exists {
                    self.reach_container();
                } else {
                    self.stage = Stage::CreateAppDir;
                }
            },
            _ => {
                if exists {
                    self.stage = Stage::ReadDocument;
                } else {
                    self.end(Outcome::Absent);
                }
            },
        }
    }

    /// Hands over whether creating the container succeeded.
    pub fn on_created(&mut self, created: bool)
        requires
            old(self).wf(),
            old(self).stage == Stage::CreateAppDir,
        ensures
            *final(self) == old(self).after_created(created),
            final(self).wf(),
    {
        if created {
            self.reach_container();
        } else {
            self.end(Outcome::Unavailable);
        }
    }

    /// Hands over the result of writing the document.
    pub fn on_written(&mut self, result: Result<(), String>)
        requires
            old(self).wf(),
            old(self).stage == Stage::WriteDocument,
        ensures
            *final(self) == old(self).after_written(result),
            final(self).wf(),
    {
        match result {
            Ok(()) => self.end(Outcome::Written),
            Err(e) => self.end(Outcome::IoError(e)),
        }
    }

    /// Hands over the result of reading the document.
    pub fn on_read(&mut self, result: Result<String, String>)
        requires
            old(self).wf(),
            old(self).stage == Stage::ReadDocument,
        ensures
            *final(self) == old(self).after_read(result),
            final(self).wf(),
    {
        match result {
            Ok(text) => self.end(Outcome::Contents(text)),
            Err(e) => self.end(Outcome::IoError(e)),
        }
    }
}

/// On a platform without the cloud folder convention, every operation ends
/// at once as unsupported, whatever the file name, and nothing is probed.
pub proof fn lemma_unsupported_platform(request: Request, filename: String, contents: String)
    ensures
        started(false, request, filename, contents).stage == Stage::Done,
        started(false, request, filename, contents).outcome is Unsupported,
        started(false, request, filename, contents).wf(),
{
}

/// Reading a document that the available container lacks ends with "no
/// document", whether the container existed or had to be created.
pub proof fn lemma_missing_document_is_absent(home: String, filename: String, contents: String, created: bool)
    ensures
        started(true, Request::Read, filename, contents).after_home(Some(home)).after_exists(true).after_exists(
            true,
        ).after_exists(false).outcome is Absent,
        created ==> started(true, Request::Read, filename, contents).after_home(Some(home)).after_exists(
            true,
        ).after_exists(false).after_created(created).after_exists(false).outcome is Absent,
{
}

/// A write and a later read of the same file name, under the same home
/// directory, reach the same document; and when the read finds there the
/// text that was written, it returns that text.
pub proof fn lemma_write_then_read(home: String, filename: String, text: String, other_contents: String)
    ensures
        ({
            let w = started(true, Request::Write, filename, text).after_home(Some(home)).after_exists(
                true,
            ).after_exists(true);
            let r = started(true, Request::Read, filename, other_contents).after_home(Some(home)).after_exists(
                true,
            ).after_exists(true).after_exists(true);
            &&& w.stage == Stage::WriteDocument
            &&& w.contents == text
            &&& w.after_written(Ok(())).outcome is Written
            &&& r.stage == Stage::ReadDocument
            &&& r.stage_path() == w.stage_path()
            &&& r.stage_path() == document(home@, filename@)
            &&& r.after_read(Ok(text)).outcome == Outcome::Contents(text)
        }),
{
}

} // verus!
