//! The errors that network operations report, and their mathematical view.

use vstd::prelude::*;

verus! {

/// Why a network operation was refused.
#[derive(Debug, PartialEq, Eq)]
pub enum NetworkError {
    /// An endpoint URL was empty or only whitespace.
    EmptyUrl { label: String },
    /// An endpoint URL could not be parsed; `reason` is the parser's message.
    InvalidUrl { label: String, url: String, reason: String },
    /// An endpoint URL used a scheme other than `http` or `https`.
    UnsupportedScheme { label: String, scheme: String },
    /// An endpoint URL had no host.
    MissingHost { label: String },
    /// A network passphrase was given but was empty or only whitespace.
    BlankPassphrase,
    /// No network of this name is configured.
    UnknownNetwork { name: String },
    /// The name belongs to a built-in network, which cannot be added, removed or renamed.
    ReservedName { name: String },
    /// A network of this name is already configured.
    AlreadyExists { name: String },
}

/// `NetworkError` with its texts as character sequences.
pub enum NetworkErrorView {
    EmptyUrl { label: Seq<char> },
    InvalidUrl { label: Seq<char>, url: Seq<char>, reason: Seq<char> },
    UnsupportedScheme { label: Seq<char>, scheme: Seq<char> },
    MissingHost { label: Seq<char> },
    BlankPassphrase,
    UnknownNetwork { name: Seq<char> },
    ReservedName { name: Seq<char> },
    AlreadyExists { name: Seq<char> },
}

impl View for NetworkError {
    type V = NetworkErrorView;

    open spec fn view(&self) -> NetworkErrorView {
        match self {
            NetworkError::EmptyUrl { label } => NetworkErrorView::EmptyUrl { label: label@ },
            NetworkError::InvalidUrl { label, url, reason } => NetworkErrorView::InvalidUrl {
                label: label@,
                url: url@,
                reason: reason@,
            },
            NetworkError::UnsupportedScheme { label, scheme } => NetworkErrorView::UnsupportedScheme {
                label: label@,
                scheme: scheme@,
            },
            NetworkError::MissingHost { label } => NetworkErrorView::MissingHost { label: label@ },
            NetworkError::BlankPassphrase => NetworkErrorView::BlankPassphrase,
            NetworkError::UnknownNetwork { name } => NetworkErrorView::UnknownNetwork { name: name@ },
            NetworkError::ReservedName { name } => NetworkErrorView::ReservedName { name: name@ },
            NetworkError::AlreadyExists { name } => NetworkErrorView::AlreadyExists { name: name@ },
        }
    }
}

/// The error of a unit result, by its view.
pub open spec fn unit_outcome(r: Result<(), NetworkError>) -> Result<(), NetworkErrorView> {
    match r {
        Ok(_) => Ok(()),
        Err(e) => Err(e@),
    }
}

/// The message shown for an error.
pub open spec fn message_text(e: NetworkErrorView) -> Seq<char> {
    match e {
        NetworkErrorView::EmptyUrl { label } => label + " URL cannot be empty"@,
        NetworkErrorView::InvalidUrl { label, url, reason } => "Invalid "@ + label + " URL '"@ + url + "': "@
            + reason,
        NetworkErrorView::UnsupportedScheme { label, scheme } => label
            + " URL scheme must be http or https, got '"@ + scheme + "'"@,
        NetworkErrorView::MissingHost { label } => label + " URL missing valid host"@,
        NetworkErrorView::BlankPassphrase => "Network passphrase cannot be empty or only whitespace"@,
        NetworkErrorView::UnknownNetwork { name } => "Network '"@ + name + "' not found"@,
        NetworkErrorView::ReservedName { name } => "'"@ + name
            + "' is a built-in network and cannot be changed"@,
        NetworkErrorView::AlreadyExists { name } => "Network '"@ + name + "' already exists"@,
    }
}

impl NetworkError {
    /// The message shown for this error (see `message_text`).
    pub fn message(&self) -> (r: String)
        ensures
            r@ == message_text(self@),
    {
        match self {
            NetworkError::EmptyUrl { label } => {
                let mut r = label.clone();
                r.append(" URL cannot be empty");
                r
            },
            NetworkError::InvalidUrl { label, url, reason } => {
                let mut r = String::from_str("Invalid ");
                r.append(label.as_str());
                r.append(" URL '");
                r.append(url.as_str());
                r.append("': ");
                r.append(reason.as_str());
                r
            },
            NetworkError::UnsupportedScheme { label, scheme } => {
                let mut r = label.clone();
                r.append(" URL scheme must be http or https, got '");
                r.append(scheme.as_str());
                r.append("'");
                r
            },
            NetworkError::MissingHost { label } => {
                let mut r = label.clone();
                r.append(" URL missing valid host");
                r
            },
            NetworkError::BlankPassphrase => String::from_str(
                "Network passphrase cannot be empty or only whitespace",
            ),
            NetworkError::UnknownNetwork { name } => {
                let mut r = String::from_str("Network '");
                r.append(name.as_str());
                r.append("' not found");
                r
            },
            NetworkError::ReservedName { name } => {
                let mut r = String::from_str("'");
                r.append(name.as_str());
                r.append("' is a built-in network and cannot be changed");
                r
            },
            NetworkError::AlreadyExists { name } => {
                let mut r = String::from_str("Network '");
                r.append(name.as_str());
                r.append("' already exists");
                r
            },
        }
    }
}

} // verus!
