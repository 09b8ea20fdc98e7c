//! The catalogue of server profiles: what it holds, and how profiles enter
//! and leave it.

use crate::error::ToolError;
use crate::text::{nat_digits, nat_to_string};
use vstd::prelude::*;
use vstd::string::StringExecFns;

verus! {

/// One remote target and the credentials to reach it.
#[derive(Debug, Clone, PartialEq, Eq)]
pub struct Server {
    /// The name by which the profile is found; no two profiles share one.
    pub label: String,
    /// Host name or address.
    pub host: String,
    /// Port of the SSH service.
    pub port: i64,
    /// Account on the server.
    pub username: String,
    /// Password of the account; empty where none is set.
    pub password: String,
    /// Kept with the profile and read by nothing.
    pub private_key: String,
    /// Path of a private key file; empty where none is set.
    pub identity_file: String,
}

/// What a profile holds, as mathematical values.
pub ghost struct ServerView {
    pub label: Seq<char>,
    pub host: Seq<char>,
    pub port: int,
    pub username: Seq<char>,
    pub password: Seq<char>,
    pub private_key: Seq<char>,
    pub identity_file: Seq<char>,
}

impl View for Server {
    type V = ServerView;

    open spec fn view(&self) -> ServerView {
        ServerView {
            label: self.label@,
            host: self.host@,
            port: self.port as int,
            username: self.username@,
            password: self.password@,
            private_key: self.private_key@,
            identity_file: self.identity_file@,
        }
    }
}

/// The profiles of a catalogue, in the order in which they were added.
#[derive(Debug, Clone, PartialEq, Eq)]
pub struct Config {
    pub servers: Vec<Server>,
}

/// What each of a run of profiles holds, in the same order.
pub open spec fn profiles_of(servers: Seq<Server>) -> Seq<ServerView> {
    servers.map_values(|server: Server| server@)
}

impl View for Config {
    type V = Seq<ServerView>;

    open spec fn view(&self) -> Seq<ServerView> {
        profiles_of(self.servers@)
    }
}

/// Whether some profile of the sequence carries the label.
pub open spec fn has_label(servers: Seq<ServerView>, label: Seq<char>) -> bool {
    exists|i: int| 0 <= i < servers.len() && (#[trigger] servers[i]).label == label
}

/// Whether `i` is the place of the first profile that carries the label.
pub open spec fn is_first_with_label(servers: Seq<ServerView>, label: Seq<char>, i: int) -> bool {
    &&& 0 <= i < servers.len()
    &&& servers[i].label == label
    &&& forall|j: int| 0 <= j < i ==> (#[trigger] servers[j]).label != label
}

/// Whether no two profiles of the sequence share a label.
pub open spec fn labels_unique(servers: Seq<ServerView>) -> bool {
    forall|i: int, j: int|
        0 <= i < j < servers.len() ==> (#[trigger] servers[i]).label != (#[trigger] servers[j]).label
}

/// The sequence after a request to add a profile: the profile stands at the
/// end, unless its label is taken, in which case nothing changes.
pub open spec fn with_added(servers: Seq<ServerView>, server: ServerView) -> Seq<ServerView> {
    if has_label(servers, server.label) {
        servers
    } else {
        servers.push(server)
    }
}

/// The sequence after a request to remove a label: the first profile that
/// carries it is gone and the others keep their order; where none carries it,
/// nothing changes.
pub open spec fn with_removed(servers: Seq<ServerView>, label: Seq<char>) -> Seq<ServerView> {
    if has_label(servers, label) {
        servers.remove(choose|i: int| is_first_with_label(servers, label, i))
    } else {
        servers
    }
}

/// The line that shows the profile at place `i` (counted from zero) of a
/// listing: its number, counted from one, then its label and its host.
pub open spec fn listing_line(i: int, server: ServerView) -> Seq<char> {
    nat_digits((i + 1) as nat) + ": "@ + server.label + " - "@ + server.host
}

/// What was found where the catalogue is kept.
#[derive(Debug, Clone, PartialEq, Eq)]
pub enum FileState {
    /// There is no file.
    Missing,
    /// There is a file, and it does not hold a catalogue of profiles.
    Malformed,
    /// There is a file, and it holds these profiles.
    Loaded(Config),
}

/// The catalogue that opens on what was found, or why none does. No file is
/// an empty catalogue where a profile is about to be added (`is_add`), and
/// means that the tool is not set up otherwise. A file that holds no
/// catalogue, or one in which two profiles share a label, cannot be read.
pub open spec fn found_in(is_add: bool, stored: FileState) -> Result<Seq<ServerView>, ToolError> {
    match stored {
        FileState::Missing => if is_add {
            Ok(Seq::<ServerView>::empty())
        } else {
            Err(ToolError::NotConfigured)
        },
        FileState::Malformed => Err(ToolError::ParseError),
        FileState::Loaded(config) => if labels_unique(config@) {
            Ok(config@)
        } else {
            Err(ToolError::ParseError)
        },
    }
}

/// At most one place is the first with a given label.
pub proof fn lemma_first_with_label_unique(
    servers: Seq<ServerView>,
    label: Seq<char>,
    i: int,
    j: int,
)
    requires
        is_first_with_label(servers, label, i),
        is_first_with_label(servers, label, j),
    ensures
        i == j,
{
    if i < j {
        assert(servers[i].label != label);
    } else if j < i {
        assert(servers[j].label != label);
    }
}

/// The place of the first profile with a label, if any carries it.
pub fn find_label(servers: &Vec<Server>, label: &String) -> (r: Option<usize>)
    ensures
        match r {
            Some(i) => is_first_with_label(profiles_of(servers@), label@, i as int),
            None => !has_label(profiles_of(servers@), label@),
        },
{
    let ghost view = profiles_of(servers@);
    let n: usize = servers.len();
    let mut i: usize = 0;
    while i < n
        invariant
            n == servers@.len(),
            i <= n,
            view == profiles_of(servers@),
            forall|j: int| 0 <= j < i ==> (#[trigger] view[j]).label != label@,
        decreases n - i,
    {
        if servers[i].label == *label {
            return Some(i);
        }
        i = i + 1;
    }
    None
}

/// Whether no two of the profiles share a label.
pub fn has_unique_labels(servers: &Vec<Server>) -> (r: bool)
    ensures
        r == labels_unique(profiles_of(servers@)),
{
    let ghost view = profiles_of(servers@);
    let n: usize = servers.len();
    let mut j: usize = 0;
    while j < n
        invariant
            n == servers@.len(),
            j <= n,
            view == profiles_of(servers@),
            forall|a: int, b: int|
                0 <= a < b < j ==> (#[trigger] view[a]).label != (#[trigger] view[b]).label,
        decreases n - j,
    {
        let mut i: usize = 0;
        while i < j
            invariant
                n == servers@.len(),
                j < n,
                i <= j,
                view == profiles_of(servers@),
                forall|a: int| 0 <= a < i ==> (#[trigger] view[a]).label != view[j as int].label,
            decreases j - i,
        {
            if servers[i].label == servers[j].label {
                assert(view[i as int].label == view[j as int].label);
                return false;
            }
            i = i + 1;
        }
        j = j + 1;
    }
    true
}

/// A catalogue of profiles and the path of the file that keeps it.
#[derive(Debug, Clone, PartialEq, Eq)]
pub struct ConfingUtil {
    pub path: String,
    pub config: Config,
}

impl View for ConfingUtil {
    type V = Seq<ServerView>;

    open spec fn view(&self) -> Seq<ServerView> {
        self.config@
    }
}

impl ConfingUtil {
    /// Whether the catalogue is as it should be: no label occurs twice.
    pub open spec fn wf(&self) -> bool {
        labels_unique(self@)
    }

    /// Opens the catalogue kept at `path`, given what was found there. A
    /// missing file stands for an empty catalogue where a profile is about to
    /// be added (`is_add`), and is a failure otherwise. A file in which two
    /// profiles share a label holds no catalogue.
    pub fn get_config(path: String, is_add: bool, stored: FileState) -> (r: Result<
        ConfingUtil,
        ToolError,
    >)
        ensures
            match r {
                Ok(store) => {
                    &&& found_in(is_add, stored) == Ok::<Seq<ServerView>, ToolError>(store@)
                    &&& store.path == path
                    &&& store.wf()
                    &&& stored matches FileState::Loaded(config) ==> store.config == config
                },
                Err(e) => found_in(is_add, stored) == Err::<Seq<ServerView>, ToolError>(e),
            },
    {
        match stored {
            FileState::Missing => {
                if !is_add {
                    return Err(ToolError::NotConfigured);
                }
                let store = ConfingUtil { path, config: Config { servers: Vec::new() } };
                assert(store@ =~= Seq::<ServerView>::empty());
                Ok(store)
            },
            FileState::Malformed => Err(ToolError::ParseError),
            FileState::Loaded(config) => {
                if !has_unique_labels(&config.servers) {
                    return Err(ToolError::ParseError);
                }
                Ok(ConfingUtil { path, config })
            },
        }
    }

    /// Adds a profile at the end of the catalogue, unless its label is taken.
    pub fn add(&mut self, server: Server) -> (r: Result<(), ToolError>)
        ensures
            final(self).path == old(self).path,
            final(self)@ == with_added(old(self)@, server@),
            match r {
                Ok(_) => {
                    &&& !has_label(old(self)@, server.label@)
                    &&& final(self).config.servers@ == old(self).config.servers@.push(server)
                },
                Err(e) => {
                    &&& e == ToolError::DuplicateLabel
                    &&& has_label(old(self)@, server.label@)
                    &&& *final(self) == *old(self)
                },
            },
            old(self).wf() ==> final(self).wf(),
    {
        if find_label(&self.config.servers, &server.label).is_some() {
            return Err(ToolError::DuplicateLabel);
        }
        self.config.servers.push(server);
        proof {
            assert(final(self)@ =~= old(self)@.push(server@));
            if old(self).wf() {
                assert forall|i: int, j: int| 0 <= i < j < final(self)@.len() implies (
                #[trigger] final(self)@[i]).label != (#[trigger] final(self)@[j]).label by {
                    if j < old(self)@.len() {
                        assert(old(self)@[i].label != old(self)@[j].label);
                    } else {
                        assert(old(self)@[i].label != server@.label);
                    }
                }
            }
        }
        Ok(())
    }

    /// Removes the profile that carries the label. Where none does, nothing
    /// changes, and that is no failure.
    pub fn remove(&mut self, server_name: String) -> (r: Result<(), ToolError>)
        ensures
            r.is_ok(),
            final(self).path == old(self).path,
            final(self)@ == with_removed(old(self)@, server_name@),
            !has_label(old(self)@, server_name@) ==> *final(self) == *old(self),
            forall|i: int|
                is_first_with_label(old(self)@, server_name@, i) ==> final(self).config.servers@
                    == old(self).config.servers@.remove(i),
            old(self).wf() ==> final(self).wf() && !has_label(final(self)@, server_name@),
    {
        match find_label(&self.config.servers, &server_name) {
            Some(index) => {
                self.config.servers.remove(index);
                proof {
                    let before = old(self)@;
                    let k = choose|k: int| is_first_with_label(before, server_name@, k);
                    assert(is_first_with_label(before, server_name@, index as int));
                    lemma_first_with_label_unique(before, server_name@, k, index as int);
                    assert(final(self)@ =~= before.remove(index as int));
                    assert forall|i: int|
                        is_first_with_label(
                            before,
                            server_name@,
                            i,
                        ) implies final(self).config.servers@ == old(
                        self,
                    ).config.servers@.remove(i) by {
                        lemma_first_with_label_unique(before, server_name@, i, index as int);
                    }
                    if old(self).wf() {
                        lemma_remove_keeps_unique(before, server_name@, index as int);
                    }
                }
            },
            None => {},
        }
        Ok(())
    }

    /// The profiles, in the order in which they were added.
    pub fn list(&self) -> (r: &Vec<Server>)
        ensures
            profiles_of(r@) == self@,
            r == &self.config.servers,
    {
        &self.config.servers
    }

    /// One line for each profile, in the order in which they were added,
    /// numbered from one.
    pub fn listing(&self) -> (r: Vec<String>)
        ensures
            r@.len() == self@.len(),
            forall|i: int| 0 <= i < self@.len() ==> (#[trigger] r@[i])@ == listing_line(i, self@[i]),
    {
        let n: usize = self.config.servers.len();
        let mut lines: Vec<String> = Vec::new();
        let mut i: usize = 0;
        while i < n
            invariant
                n == self.config.servers@.len(),
                i <= n,
                lines@.len() == i,
                forall|k: int| 0 <= k < i ==> (#[trigger] lines@[k])@ == listing_line(k, self@[k]),
            decreases n - i,
        {
            let server = &self.config.servers[i];
            let mut line = nat_to_string((i + 1) as u64);
            line.append(": ");
            line.append(server.label.as_str());
            line.append(" - ");
            line.append(server.host.as_str());
            assert(line@ == listing_line(i as int, self@[i as int]));
            lines.push(line);
            i = i + 1;
        }
        lines
    }
}

/// Taking the first profile with a label out of a sequence without repeated
/// labels leaves one without repeated labels, in which the label is free.
pub proof fn lemma_remove_keeps_unique(servers: Seq<ServerView>, label: Seq<char>, i: int)
    requires
        labels_unique(servers),
        is_first_with_label(servers, label, i),
    ensures
        labels_unique(servers.remove(i)),
        !has_label(servers.remove(i), label),
{
    let rest = servers.remove(i);
    assert forall|a: int, b: int| 0 <= a < b < rest.len() implies (#[trigger] rest[a]).label != (
    #[trigger] rest[b]).label by {
        let a0 = if a < i {
            a
        } else {
            a + 1
        };
        let b0 = if b < i {
            b
        } else {
            b + 1
        };
        assert(rest[a] == servers[a0]);
        assert(rest[b] == servers[b0]);
        assert(servers[a0].label != servers[b0].label);
    }
    assert forall|a: int| 0 <= a < rest.len() implies (#[trigger] rest[a]).label != label by {
        let a0 = if a < i {
            a
        } else {
            a + 1
        };
        assert(rest[a] == servers[a0]);
        if a0 < i {
            assert(servers[a0].label != label);
        } else {
            assert(servers[i].label != servers[a0].label);
        }
    }
}

/// A profile added to an empty catalogue is all that the catalogue holds,
/// and a file that holds what the catalogue then holds opens as a catalogue
/// of exactly that profile, whether or not a profile is about to be added.
pub proof fn lemma_add_then_reload(server: ServerView, written: Config, is_add: bool)
    requires
        written@ == with_added(Seq::<ServerView>::empty(), server),
    ensures
        with_added(Seq::<ServerView>::empty(), server) == seq![server],
        found_in(is_add, FileState::Loaded(written)) == Ok::<Seq<ServerView>, ToolError>(
            seq![server],
        ),
{
    assert(Seq::<ServerView>::empty().push(server) =~= seq![server]);
}

} // verus!
