//! Where a shader lives and when it is worth saving.
//!
//! The decisions — is the content dirty, may a save start, what does a
//! completed save leave behind — are made here. The file dialog, the disk
//! write and the task that performs them are the runtime's; it reports the
//! outcome back through the manager's result mailbox.

use vstd::prelude::*;

use crate::communication::Mailbox;
use crate::shader_config::{default_compute_source_spec, default_compute_source};

verus! {

/// A shader stored as a file.
pub struct ShaderFileLocation {
    pub path: String,
}

/// A shader stored in the remote database.
pub struct ShaderDBEntry {
    pub id: u64,
}

/// Where the user prefers new shaders to go.
#[derive(Clone, Copy, PartialEq, Eq, Structural)]
pub enum ShaderStorageTypePreference {
    File,
    DB,
}

/// A settled storage place.
pub enum ShaderStorageLocation {
    File(ShaderFileLocation),
    RemoteDB(ShaderDBEntry),
}

/// A storage place, or only a preference that a picker dialog must still
/// turn into one.
pub enum ConcreteOrUndecidedLocation {
    Concrete(ShaderStorageLocation),
    Undecided(ShaderStorageTypePreference),
}

impl Default for ConcreteOrUndecidedLocation {
    /// New shaders go to a file until the user decides otherwise.
    fn default() -> (r: Self)
        ensures
            r == ConcreteOrUndecidedLocation::Undecided(ShaderStorageTypePreference::File),
    {
        ConcreteOrUndecidedLocation::Undecided(ShaderStorageTypePreference::File)
    }
}

/// A shader's content and display name.
pub struct ShaderInfo {
    pub contents: String,
    pub name: String,
}

/// Whether two shader snapshots read the same.
pub open spec fn shader_info_eqv(a: ShaderInfo, b: ShaderInfo) -> bool {
    a.contents@ == b.contents@ && a.name@ == b.name@
}

impl ShaderInfo {
    /// Decides [`shader_info_eqv`] at run time.
    pub fn same_as(&self, other: &ShaderInfo) -> (r: bool)
        ensures
            r == shader_info_eqv(*self, *other),
    {
        self.contents.eq(&other.contents) && self.name.eq(&other.name)
    }

    /// An owned copy with the same content.
    pub fn duplicate(&self) -> (c: Self)
        ensures
            shader_info_eqv(*self, c),
    {
        ShaderInfo { contents: self.contents.clone(), name: self.name.clone() }
    }
}

impl Default for ShaderInfo {
    /// The starter compute shader under a placeholder name.
    fn default() -> (r: Self)
        ensures
            r.contents@ == default_compute_source_spec(),
            r.name@ == "Untitled Shader"@,
    {
        ShaderInfo {
            contents: default_compute_source().to_owned(),
            name: "Untitled Shader".to_owned(),
        }
    }
}

/// The link between the editor and one stored shader: where it lives, what
/// the store last accepted, and whether a save is in flight.
pub struct ShaderStorageConnection {
    pub location: ConcreteOrUndecidedLocation,
    pub info_in_location: ShaderInfo,
    pub currently_saving: bool,
}

impl ShaderStorageConnection {
    /// Where the shader lives.
    pub open spec fn spec_location(&self) -> ConcreteOrUndecidedLocation {
        self.location
    }

    /// What the store last accepted.
    pub open spec fn spec_content(&self) -> ShaderInfo {
        self.info_in_location
    }

    pub fn get_location(&self) -> (r: &ConcreteOrUndecidedLocation)
        ensures
            *r == self.spec_location(),
    {
        &self.location
    }

    pub fn get_content(&self) -> (r: &ShaderInfo)
        ensures
            *r == self.spec_content(),
    {
        &self.info_in_location
    }

    pub fn new(location: ConcreteOrUndecidedLocation, content: ShaderInfo) -> (c: Self)
        ensures
            c.spec_location() == location,
            c.spec_content() == content,
            !c.currently_saving,
    {
        ShaderStorageConnection { location, info_in_location: content, currently_saving: false }
    }

    /// Whether the editor's content differs from what the store holds.
    pub fn saving_needed(&self, content: &ShaderInfo) -> (r: bool)
        ensures
            r == !shader_info_eqv(self.spec_content(), *content),
    {
        !self.info_in_location.same_as(content)
    }

    /// Whether a save may start now: the content is dirty and no save is
    /// already in flight.
    pub fn eligible_to_save(&self, content: &ShaderInfo) -> (r: bool)
        ensures
            r == (!self.currently_saving && !shader_info_eqv(self.spec_content(), *content)),
    {
        !self.currently_saving && self.saving_needed(content)
    }

    /// The connection a completed save leaves behind: the location is now
    /// settled, the store holds the new content, nothing is in flight.
    pub fn saved(concrete_loc: ShaderStorageLocation, new_content: ShaderInfo) -> (c: Self)
        ensures
            c.spec_location() == ConcreteOrUndecidedLocation::Concrete(concrete_loc),
            c.spec_content() == new_content,
            !c.currently_saving,
    {
        ShaderStorageConnection {
            location: ConcreteOrUndecidedLocation::Concrete(concrete_loc),
            info_in_location: new_content,
            currently_saving: false,
        }
    }

    /// An owned copy of this connection, handed to the task performing the
    /// save.
    pub fn duplicate(&self) -> (c: Self)
        ensures
            c.spec_location() == self.spec_location(),
            shader_info_eqv(c.spec_content(), self.spec_content()),
            c.currently_saving == self.currently_saving,
    {
        ShaderStorageConnection {
            location: match &self.location {
                ConcreteOrUndecidedLocation::Concrete(ShaderStorageLocation::File(f)) => (
                    ConcreteOrUndecidedLocation::Concrete(
                        ShaderStorageLocation::File(
                            ShaderFileLocation { path: f.path.clone() },
                        ),
                    )
                ),
                ConcreteOrUndecidedLocation::Concrete(ShaderStorageLocation::RemoteDB(d)) => (
                    ConcreteOrUndecidedLocation::Concrete(
                        ShaderStorageLocation::RemoteDB(ShaderDBEntry { id: d.id }),
                    )
                ),
                ConcreteOrUndecidedLocation::Undecided(p) => (
                    ConcreteOrUndecidedLocation::Undecided(*p)
                ),
            },
            info_in_location: self.info_in_location.duplicate(),
            currently_saving: self.currently_saving,
        }
    }
}

impl Default for ShaderStorageConnection {
    /// A fresh connection: undecided location, starter content, no save in
    /// flight.
    fn default() -> (r: Self)
        ensures
            r.spec_location() == ConcreteOrUndecidedLocation::Undecided(
                ShaderStorageTypePreference::File,
            ),
            r.spec_content().contents@ == default_compute_source_spec(),
            r.spec_content().name@ == "Untitled Shader"@,
            !r.currently_saving,
    {
        ShaderStorageConnection {
            location: Default::default(),
            info_in_location: Default::default(),
            currently_saving: false,
        }
    }
}

/// Drives one save at a time: marks the connection busy when a save may
/// start, and folds the task's reported outcome back in.
pub struct ShaderStorageConnectionManager {
    pub connection: ShaderStorageConnection,
    pub channel: Option<Mailbox<Option<ShaderStorageConnection>>>,
}

impl ShaderStorageConnectionManager {
    /// Starts a save if one is due: marks the connection busy, installs the
    /// result mailbox, and hands the saving task its own copy of the
    /// connection. Yields nothing when the content is clean or a save is
    /// already in flight.
    pub fn start_save(&mut self, new_content: &ShaderInfo) -> (r: Option<ShaderStorageConnection>)
        ensures
            ({
                let eligible = !old(self).connection.currently_saving && !shader_info_eqv(
                    old(self).connection.spec_content(),
                    *new_content,
                );
                &&& !eligible ==> r is None && *final(self) == *old(self)
                &&& eligible ==> ({
                    let copy = r.unwrap();
                    &&& r is Some
                    &&& copy.spec_location() == old(self).connection.spec_location()
                    &&& shader_info_eqv(
                        copy.spec_content(),
                        old(self).connection.spec_content(),
                    )
                    &&& !copy.currently_saving
                    &&& final(self).connection.currently_saving
                    &&& final(self).connection.spec_location()
                        == old(self).connection.spec_location()
                    &&& final(self).connection.spec_content()
                        == old(self).connection.spec_content()
                    &&& final(self).channel matches Some(m) && (m.spec_pending()
                        == Seq::<Option<ShaderStorageConnection>>::empty())
                })
            }),
    {
        if !self.connection.eligible_to_save(new_content) {
            return None;
        }
        let copy = self.connection.duplicate();
        self.connection.currently_saving = true;
        self.channel = Some(Mailbox::new());
        Some(copy)
    }

    /// Folds a reported save outcome back in: a successful save replaces
    /// the connection, a failed one only clears the busy mark; either way
    /// the result mailbox is retired.
    pub fn update(&mut self)
        ensures
            ({
                let got = old(self).channel matches Some(m) && (m.spec_pending().len() > 0);
                &&& !got ==> final(self).connection == old(self).connection
                &&& !got ==> (final(self).channel is None <==> old(self).channel is None)
                &&& !got ==> (old(self).channel matches Some(m) ==> (
                    final(self).channel matches Some(m2)
                        && (m2.spec_pending() == m.spec_pending())
                ))
                &&& got ==> (old(self).channel matches Some(m) && ({
                    let res = m.spec_pending()[0];
                    &&& final(self).channel is None
                    &&& res matches Some(new_conn) ==> final(self).connection == new_conn
                    &&& res is None ==> {
                        &&& final(self).connection.spec_location()
                            == old(self).connection.spec_location()
                        &&& final(self).connection.spec_content()
                            == old(self).connection.spec_content()
                        &&& !final(self).connection.currently_saving
                    }
                }))
            }),
    {
        let got = match &mut self.channel {
            Option::Some(reader) => reader.try_recv(),
            Option::None => None,
        };
        match got {
            Option::Some(res) => {
                self.connection.currently_saving = false;
                if let Some(new_connection) = res {
                    self.connection = new_connection;
                }
                self.channel = None;
            },
            Option::None => {},
        }
    }
}

} // verus!
