//! Manifest records as the loader hands them over, and their validation into
//! domain processes.
use vstd::prelude::*;
use crate::entities::{
    CommunicationMode, DomainError, Executable, PipeName, Process, ProcessId, Route,
    WorkingDirectory, valid_route, clone_strings,
};
use crate::errors::{RepositoryError, domain_error_message, domain_message};
use crate::text::str_eq;

verus! {

/// The manifest: the processes to orchestrate, in declaration order.
#[derive(Debug, Clone)]
pub struct Manifest {
    pub processes: Vec<ProcessConfig>,
}

/// One process entry of the manifest, as written.
#[derive(Debug, Clone)]
pub struct ProcessConfig {
    pub id: String,
    pub executable: String,
    pub args: Vec<String>,
    pub route: String,
    pub pipe_name: String,
    pub working_dir: Option<String>,
    pub communication_mode: String,
}

/// One process record as read from the manifest, before validation.
#[derive(Debug)]
pub struct ProcessDto {
    pub id: String,
    pub executable: String,
    pub args: Vec<String>,
    pub route: String,
    pub pipe_name: String,
    pub working_dir: Option<String>,
    pub communication_mode: Option<String>,
}

/// The communication mode a manifest value names: `http`, or `pipe` and
/// absence for the default; anything else names none.
pub open spec fn parse_mode(m: Option<Seq<char>>) -> Option<CommunicationMode> {
    match m {
        None => Some(CommunicationMode::Pipe),
        Some(s) => if s == "http"@ {
            Some(CommunicationMode::Http)
        } else if s == "pipe"@ {
            Some(CommunicationMode::Pipe)
        } else {
            None
        },
    }
}

pub open spec fn opt_view(v: Option<String>) -> Option<Seq<char>> {
    match v {
        Some(s) => Some(s@),
        None => None,
    }
}

fn clone_opt(v: &Option<String>) -> (r: Option<String>)
    ensures
        r == *v,
{
    match v {
        Some(s) => Some(s.clone()),
        None => None,
    }
}

impl Clone for ProcessDto {
    fn clone(&self) -> (r: Self)
        ensures
            r.id == self.id,
            r.executable == self.executable,
            r.args@ == self.args@,
            r.route == self.route,
            r.pipe_name == self.pipe_name,
            r.working_dir == self.working_dir,
            r.communication_mode == self.communication_mode,
    {
        ProcessDto {
            id: self.id.clone(),
            executable: self.executable.clone(),
            args: clone_strings(&self.args),
            route: self.route.clone(),
            pipe_name: self.pipe_name.clone(),
            working_dir: clone_opt(&self.working_dir),
            communication_mode: clone_opt(&self.communication_mode),
        }
    }
}

impl ProcessDto {
    /// Every field of the record is acceptable.
    pub open spec fn is_valid(&self) -> bool {
        &&& parse_mode(opt_view(self.communication_mode)) is Some
        &&& self.id@.len() > 0
        &&& self.executable@.len() > 0
        &&& valid_route(self.route@)
        &&& self.pipe_name@.len() > 0
    }

    /// The message for the first invalid field, checked in the order mode,
    /// id, executable, route, endpoint name.
    pub open spec fn error_message(&self) -> Seq<char> {
        if parse_mode(opt_view(self.communication_mode)) is None {
            "Invalid communication mode: "@ + self.communication_mode->Some_0@
                + ". Must be 'pipe' or 'http'"@
        } else if self.id@.len() == 0 {
            "Invalid process ID: "@ + "Process ID cannot be empty"@
        } else if self.executable@.len() == 0 {
            "Invalid executable: "@ + "Executable path cannot be empty"@
        } else if !valid_route(self.route@) {
            "Invalid route: "@ + "Route must start with /"@
        } else {
            "Invalid pipe name: "@ + "Pipe name cannot be empty"@
        }
    }

    /// Validates the record into a domain process.
    pub fn into_domain(self) -> (r: Result<Process, String>)
        ensures
            r is Ok <==> self.is_valid(),
            r matches Err(m) ==> m@ == self.error_message(),
            r matches Ok(p) ==> p.built_from(self),
    {
        let communication_mode = match &self.communication_mode {
            None => CommunicationMode::Pipe,
            Some(m) => {
                if str_eq(m.as_str(), "http") {
                    CommunicationMode::Http
                } else if str_eq(m.as_str(), "pipe") {
                    CommunicationMode::Pipe
                } else {
                    let msg = String::from_str("Invalid communication mode: ").concat(m.as_str()).concat(
                        ". Must be 'pipe' or 'http'",
                    );
                    return Err(msg);
                }
            },
        };
        let id = match ProcessId::new(self.id.as_str()) {
            Ok(v) => v,
            Err(e) => return Err(domain_error_message(&e)),
        };
        let executable = match Executable::new(self.executable.as_str()) {
            Ok(v) => v,
            Err(e) => return Err(domain_error_message(&e)),
        };
        let route = match Route::new(self.route.as_str()) {
            Ok(v) => v,
            Err(e) => return Err(domain_error_message(&e)),
        };
        let pipe_name = match PipeName::new(self.pipe_name.as_str()) {
            Ok(v) => v,
            Err(e) => return Err(domain_error_message(&e)),
        };
        let working_directory = match &self.working_dir {
            Some(w) => Some(WorkingDirectory::new(w.as_str())),
            None => None,
        };
        Ok(Process {
            id,
            executable,
            arguments: self.args,
            route,
            pipe_name,
            working_directory,
            communication_mode,
        })
    }
}

impl Process {
    /// This process holds exactly the values of the record.
    pub open spec fn built_from(&self, d: ProcessDto) -> bool {
        &&& self.id@ == d.id@
        &&& self.executable@ == d.executable@
        &&& self.arguments@ == d.args@
        &&& self.route@ == d.route@
        &&& self.pipe_name@ == d.pipe_name@
        &&& self.working_directory is Some == d.working_dir is Some
        &&& (d.working_dir matches Some(w) ==> self.working_directory->Some_0@ == w@)
        &&& Some(self.communication_mode) == parse_mode(opt_view(d.communication_mode))
    }
}

/// A manifest-backed source of process definitions. Reading the file and
/// parsing its XML happen outside the library; the records it yields are
/// validated here.
pub struct XmlProcessRepository {
    manifest_path: String,
}

impl XmlProcessRepository {
    pub fn new(manifest_path: &str) -> (r: Self)
        ensures
            r.path() == manifest_path@,
    {
        XmlProcessRepository { manifest_path: String::from_str(manifest_path) }
    }

    pub closed spec fn path(&self) -> Seq<char> {
        self.manifest_path@
    }

    pub fn manifest_path(&self) -> (r: &str)
        ensures
            r@ == self.path(),
    {
        self.manifest_path.as_str()
    }

    /// Validates every record in order; the first invalid one fails the whole
    /// load with a parse error carrying its message.
    pub fn processes_from_records(&self, records: Vec<ProcessDto>) -> (r: Result<Vec<Process>, RepositoryError>)
        ensures
            r is Ok <==> forall|i: int| 0 <= i < records@.len() ==> #[trigger] records@[i].is_valid(),
            r matches Err(e) ==> exists|i: int| {
                &&& 0 <= i < records@.len()
                &&& !#[trigger] records@[i].is_valid()
                &&& forall|j: int| 0 <= j < i ==> records@[j].is_valid()
                &&& e matches RepositoryError::ParseError(m) && m@ == records@[i].error_message()
            },
            r matches Ok(v) ==> v@.len() == records@.len() && forall|i: int| 0 <= i < v@.len() ==> (#[trigger] v@[i]).built_from(records@[i]),
    {
        let mut out: Vec<Process> = Vec::new();
        let mut i: usize = 0;
        while i < records.len()
            invariant
                i <= records@.len(),
                out@.len() == i,
                forall|j: int| 0 <= j < i ==> #[trigger] records@[j].is_valid(),
                forall|j: int| 0 <= j < i ==> (#[trigger] out@[j]).built_from(records@[j]),
            decreases records@.len() - i,
        {
            let record = records[i].clone();
            match record.into_domain() {
                Ok(p) => out.push(p),
                Err(m) => {
                    assert(!records@[i as int].is_valid());
                    return Err(RepositoryError::ParseError(m));
                },
            }
            i = i + 1;
        }
        Ok(out)
    }
}

} // verus!
