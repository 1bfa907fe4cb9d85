//! What the dashboard asks of the backend, and with which settings.
use crate::Args;
use vstd::prelude::*;
use vstd::string::StringExecFns;

verus! {

/// The settings with which the backend is reached.
pub struct Client {
    args: Args,
}

impl Client {
    /// The settings as a mathematical value.
    pub closed spec fn args(&self) -> Args {
        self.args
    }

    /// A client with the given settings.
    pub fn new(args: Args) -> (client: Self)
        ensures
            client.args() == args,
    {
        Self { args }
    }

    /// The namespace whose objects are watched; the backend's current
    /// namespace when none is set.
    pub fn namespace(&self) -> (namespace: Option<&String>)
        ensures
            namespace == match self.args().namespace {
                Some(name) => Some(&name),
                None => None,
            },
    {
        self.args.namespace.as_ref()
    }

    /// How many times the verbosity flag was given.
    pub fn verbose(&self) -> (verbose: u8)
        ensures
            verbose == self.args().verbose,
    {
        self.args.verbose
    }
}

impl Clone for Client {
    fn clone(&self) -> (client: Self)
        ensures
            client == *self,
    {
        Client { args: self.args.clone() }
    }
}

/// A change that the dashboard asks the backend to make.
#[derive(Clone, Debug, PartialEq, Eq)]
pub enum Request {
    /// Delete the pod of this name in this namespace, provided that it
    /// still has this unique id: a pod of the same name that was created
    /// since is left alone.
    DeletePod { namespace: String, name: String, uid: Option<String> },
    /// Restart the deployment of this name, pod by pod.
    RestartDeployment { name: String },
    /// Set the number of replicas that the deployment of this name should
    /// have.
    ScaleDeployment { name: String, replicas: i32 },
}

/// A request as a mathematical value.
pub enum RequestView {
    DeletePod { namespace: Seq<char>, name: Seq<char>, uid: Option<Seq<char>> },
    RestartDeployment { name: Seq<char> },
    ScaleDeployment { name: Seq<char>, replicas: i32 },
}

impl DeepView for Request {
    type V = RequestView;

    open spec fn deep_view(&self) -> RequestView {
        match self {
            Request::DeletePod { namespace, name, uid } => RequestView::DeletePod {
                namespace: namespace@,
                name: name@,
                uid: uid.deep_view(),
            },
            Request::RestartDeployment { name } => RequestView::RestartDeployment { name: name@ },
            Request::ScaleDeployment { name, replicas } => RequestView::ScaleDeployment {
                name: name@,
                replicas: *replicas,
            },
        }
    }
}

/// Why a call to the backend failed.
#[derive(Clone, Debug, PartialEq, Eq)]
pub enum RunError {
    /// The configuration could not be evaluated.
    Config(String),
    /// The client could not be created.
    Kube(String),
    /// The operation itself failed.
    Operation(String),
}

/// The message of a failure, from its kind and cause.
pub open spec fn failure_text(error: RunError) -> Seq<char> {
    match error {
        RunError::Config(cause) => "Failed to evaluate configuration: "@ + cause@,
        RunError::Kube(cause) => "Failed to create client: "@ + cause@,
        RunError::Operation(cause) => "Failed to create client: "@ + cause@,
    }
}

impl RunError {
    /// The message of this failure.
    pub fn to_text(&self) -> (text: String)
        ensures
            text@ == failure_text(*self),
    {
        match self {
            RunError::Config(cause) => String::from_str(
                "Failed to evaluate configuration: ",
            ).concat(cause.as_str()),
            RunError::Kube(cause) => String::from_str("Failed to create client: ").concat(
                cause.as_str(),
            ),
            RunError::Operation(cause) => String::from_str("Failed to create client: ").concat(
                cause.as_str(),
            ),
        }
    }
}

} // verus!
