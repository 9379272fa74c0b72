//! The entities that the compute service lists.

use vstd::prelude::*;

verus! {

/// Why a call on the service gave no result.
#[derive(Debug, Clone, Copy, PartialEq, Eq, Structural)]
pub enum ApiError {
    /// The request could not be sent, or its answer could not be read.
    Transport,
    /// The answer arrived but does not have the expected shape.
    ResponseShape,
}

/// A virtual server.
#[derive(Debug, Clone)]
pub struct Server {
    pub id: String,
    pub name: String,
    pub tenant_id: String,
    pub status: String,
}

/// What a `Server` holds, as plain texts.
pub ghost struct ServerView {
    pub id: Seq<char>,
    pub name: Seq<char>,
    pub tenant_id: Seq<char>,
    pub status: Seq<char>,
}

impl View for Server {
    type V = ServerView;

    open spec fn view(&self) -> ServerView {
        ServerView {
            id: self.id@,
            name: self.name@,
            tenant_id: self.tenant_id@,
            status: self.status@,
        }
    }
}

/// A sizing class for servers.
#[derive(Debug, Clone)]
pub struct Flavor {
    pub id: String,
    pub name: String,
}

/// What a `Flavor` holds, as plain texts.
pub ghost struct FlavorView {
    pub id: Seq<char>,
    pub name: Seq<char>,
}

impl View for Flavor {
    type V = FlavorView;

    open spec fn view(&self) -> FlavorView {
        FlavorView { id: self.id@, name: self.name@ }
    }
}

/// A bootable disk image.
#[derive(Debug, Clone)]
pub struct Image {
    pub id: String,
    pub name: String,
}

/// What an `Image` holds, as plain texts.
pub ghost struct ImageView {
    pub id: Seq<char>,
    pub name: Seq<char>,
}

impl View for Image {
    type V = ImageView;

    open spec fn view(&self) -> ImageView {
        ImageView { id: self.id@, name: self.name@ }
    }
}

/// The servers of a tenant, in the order in which the service listed them.
#[derive(Debug, Clone)]
pub struct Servers {
    pub servers: Vec<Server>,
}

impl View for Servers {
    type V = Seq<ServerView>;

    open spec fn view(&self) -> Seq<ServerView> {
        Seq::new(self.servers@.len(), |i: int| self.servers@[i]@)
    }
}

/// The flavors on offer, in the order in which the service listed them.
#[derive(Debug, Clone)]
pub struct Flavors {
    pub flavors: Vec<Flavor>,
}

impl View for Flavors {
    type V = Seq<FlavorView>;

    open spec fn view(&self) -> Seq<FlavorView> {
        Seq::new(self.flavors@.len(), |i: int| self.flavors@[i]@)
    }
}

/// The images on offer, in the order in which the service listed them.
#[derive(Debug, Clone)]
pub struct Images {
    pub images: Vec<Image>,
}

impl View for Images {
    type V = Seq<ImageView>;

    open spec fn view(&self) -> Seq<ImageView> {
        Seq::new(self.images@.len(), |i: int| self.images@[i]@)
    }
}

} // verus!
