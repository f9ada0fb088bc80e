//! The two services of the git transport and what each one needs.

use vstd::prelude::*;
use vstd::string::*;
use crate::text::same_text;

verus! {

/// How a request holds the lock of its repository.
#[derive(Clone, Copy, Debug, PartialEq, Eq, Structural)]
pub enum LockMode {
    /// Together with other readers.
    Read,
    /// Alone.
    Write,
}

/// The two services that a repository offers over HTTP.
#[derive(Clone, Copy, Debug, PartialEq, Eq, Structural)]
pub enum Service {
    /// Serves a fetch.
    UploadPack,
    /// Serves a push.
    ReceivePack,
}

/// The arguments of a command, as text.
pub open spec fn args_view(args: Seq<String>) -> Seq<Seq<char>> {
    Seq::new(args.len(), |i: int| args[i]@)
}

/// The service that a name stands for, if any.
pub open spec fn service_named(text: Seq<char>) -> Option<Service> {
    if text == "git-upload-pack"@ {
        Some(Service::UploadPack)
    } else if text == "git-receive-pack"@ {
        Some(Service::ReceivePack)
    } else {
        None
    }
}

/// The arguments that run a service of the toolchain for one request, in
/// the directory of the repository.
pub open spec fn exchange_args(service: Service) -> Seq<Seq<char>> {
    seq![service.spec_subcommand(), "--stateless-rpc"@, "."@]
}

impl Service {
    /// The name of the service in the `service` query parameter and in
    /// the request path.
    pub open spec fn spec_name(self) -> Seq<char> {
        match self {
            Service::UploadPack => "git-upload-pack"@,
            Service::ReceivePack => "git-receive-pack"@,
        }
    }

    /// The subcommand of the toolchain that serves it.
    pub open spec fn spec_subcommand(self) -> Seq<char> {
        match self {
            Service::UploadPack => "upload-pack"@,
            Service::ReceivePack => "receive-pack"@,
        }
    }

    /// The content type of the service's ref advertisement.
    pub open spec fn spec_advertisement_type(self) -> Seq<char> {
        match self {
            Service::UploadPack => "application/x-git-upload-pack-advertisement"@,
            Service::ReceivePack => "application/x-git-receive-pack-advertisement"@,
        }
    }

    /// A fetch only reads the repository and shares it with other
    /// fetches; a push changes it and needs it alone.
    pub open spec fn spec_exchange_lock(self) -> LockMode {
        match self {
            Service::UploadPack => LockMode::Read,
            Service::ReceivePack => LockMode::Write,
        }
    }

    pub fn name(&self) -> (r: &'static str)
        ensures
            r@ == self.spec_name(),
    {
        match self {
            Service::UploadPack => "git-upload-pack",
            Service::ReceivePack => "git-receive-pack",
        }
    }

    pub fn subcommand(&self) -> (r: &'static str)
        ensures
            r@ == self.spec_subcommand(),
    {
        match self {
            Service::UploadPack => "upload-pack",
            Service::ReceivePack => "receive-pack",
        }
    }

    pub fn advertisement_type(&self) -> (r: &'static str)
        ensures
            r@ == self.spec_advertisement_type(),
    {
        match self {
            Service::UploadPack => "application/x-git-upload-pack-advertisement",
            Service::ReceivePack => "application/x-git-receive-pack-advertisement",
        }
    }

    /// The lock that the pack exchange of the service takes.
    pub fn exchange_lock(&self) -> (mode: LockMode)
        ensures
            mode == self.spec_exchange_lock(),
    {
        match self {
            Service::UploadPack => LockMode::Read,
            Service::ReceivePack => LockMode::Write,
        }
    }

    /// Reads the name of a service.
    pub fn parse(text: &str) -> (r: Option<Service>)
        ensures
            r == service_named(text@),
    {
        if same_text(text, "git-upload-pack") {
            Some(Service::UploadPack)
        } else if same_text(text, "git-receive-pack") {
            Some(Service::ReceivePack)
        } else {
            None
        }
    }

    /// The arguments for the toolchain.
    pub fn args(&self) -> (r: Vec<String>)
        ensures
            args_view(r@) == exchange_args(*self),
    {
        let mut r: Vec<String> = Vec::new();
        r.push(String::from_str(self.subcommand()));
        r.push(String::from_str("--stateless-rpc"));
        r.push(String::from_str("."));
        assert(args_view(r@) =~= exchange_args(*self));
        r
    }
}

/// Every service is read back from its own name.
pub proof fn lemma_name_round_trip(service: Service)
    ensures
        service_named(service.spec_name()) == Some(service),
{
    reveal_strlit("git-upload-pack");
    reveal_strlit("git-receive-pack");
    assert("git-upload-pack"@.len() != "git-receive-pack"@.len());
}

} // verus!
