//! What a run is asked to do: which nodes to watch, and up to which level.

use vstd::prelude::*;
use crate::decimal::i32_of;
use crate::decimal::parse_i32;
use crate::supervisor::NodeTarget;
use crate::supervisor::NodeTargetView;

verus! {

/// The serialization that the `url` crate gives the absolute URL that
/// `text` writes; `None` where `text` writes none.
pub uninterp spec fn url_text(text: Seq<char>) -> Option<Seq<char>>;

/// Calls `url::Url::parse` on `text` and, where that succeeds, converts the
/// URL to a `String`, which hands out the serialization that `parse` built
/// (what `Url::as_str` shows). The contract only names the result: it
/// claims that the serialization depends on `text` alone.
#[verifier::external_body]
fn parse_url(text: &str) -> (url: Option<String>)
    ensures
        match url {
            Some(serialized) => url_text(text@) == Some(serialized@),
            None => url_text(text@) is None,
        },
{
    match url::Url::parse(text) {
        Ok(url) => Some(String::from(url)),
        Err(_) => None,
    }
}

/// Why the arguments of a run were turned down.
#[derive(Debug, Clone, Copy, PartialEq, Eq, Structural)]
pub enum ArgError {
    /// No nodes were named.
    NoNodes,
    /// The node at `position` is no absolute URL.
    InvalidUrl { position: usize },
    /// The level is missing or is no `i32`.
    InvalidLevel,
}

/// The nodes to watch, and the level that each of them is to reach.
#[derive(Debug, Clone, PartialEq, Eq)]
pub struct BootstrapEnv {
    pub level: i32,
    /// The nodes' addresses, each as a serialized URL.
    pub nodes: Vec<String>,
}

/// A `BootstrapEnv` as contracts see it.
pub struct BootstrapEnvView {
    pub level: i32,
    pub nodes: Seq<Seq<char>>,
}

impl View for BootstrapEnv {
    type V = BootstrapEnvView;

    open spec fn view(&self) -> BootstrapEnvView {
        BootstrapEnvView { level: self.level, nodes: texts(self.nodes@) }
    }
}

/// The views of `strings`, in order.
pub open spec fn texts(strings: Seq<String>) -> Seq<Seq<char>> {
    strings.map_values(|s: String| s@)
}

/// The text of an argument that may be missing: empty where it is.
pub open spec fn text_or_empty(value: Option<&str>) -> Seq<char> {
    match value {
        Some(text) => text@,
        None => Seq::empty(),
    }
}

/// What reading one node's address gave, as contracts see it.
pub open spec fn parsed_views(parsed: Seq<Option<String>>) -> Seq<Option<Seq<char>>> {
    parsed.map_values(
        |url: Option<String>|
            match url {
                Some(url) => Some(url@),
                None => None,
            },
    )
}

/// What reading each of `nodes` as a URL gives.
pub open spec fn url_texts(nodes: Seq<String>) -> Seq<Option<Seq<char>>> {
    nodes.map_values(|node: String| url_text(node@))
}

/// The entry at position `k` is the first of `parsed` that is no URL.
pub open spec fn first_invalid_url(parsed: Seq<Option<Seq<char>>>, k: int) -> bool {
    &&& 0 <= k < parsed.len()
    &&& parsed[k] is None
    &&& forall|j: int| 0 <= j < k ==> (#[trigger] parsed[j]) is Some
}

/// Every entry of `parsed` is a URL, and `urls` are these URLs.
pub open spec fn all_urls(parsed: Seq<Option<Seq<char>>>, urls: Seq<Seq<char>>) -> bool {
    &&& urls.len() == parsed.len()
    &&& forall|i: int| 0 <= i < parsed.len() ==> (#[trigger] parsed[i]) == Some(urls[i])
}

/// What the arguments of a run amount to. `level` is the text given for
/// the level, empty where none was given; `parsed` holds, for each node
/// that was named, its serialization as a URL or `None` where it is no
/// URL, and is `None` itself where no nodes were named.
///
/// The nodes are looked at first, in order, then the level.
pub open spec fn arguments_give(
    level: Seq<char>,
    parsed: Option<Seq<Option<Seq<char>>>>,
    env: Result<BootstrapEnvView, ArgError>,
) -> bool {
    match env {
        Ok(env) => {
            &&& parsed matches Some(parsed)
            &&& all_urls(parsed, env.nodes)
            &&& i32_of(level) == Some(env.level)
        },
        Err(ArgError::NoNodes) => parsed is None,
        Err(ArgError::InvalidUrl { position }) => {
            &&& parsed matches Some(parsed)
            &&& first_invalid_url(parsed, position as int)
        },
        Err(ArgError::InvalidLevel) => {
            &&& parsed matches Some(parsed)
            &&& forall|i: int| 0 <= i < parsed.len() ==> (#[trigger] parsed[i]) is Some
            &&& i32_of(level) is None
        },
    }
}

/// The view of what `from_args` returns.
pub open spec fn env_view(env: Result<BootstrapEnv, ArgError>) -> Result<
    BootstrapEnvView,
    ArgError,
> {
    match env {
        Ok(env) => Ok(env@),
        Err(error) => Err(error),
    }
}

impl BootstrapEnv {
    /// Puts a run together from the level as it was given and from the
    /// nodes as they were read; see `arguments_give`.
    pub fn from_parsed(level: Option<&str>, parsed: Option<Vec<Option<String>>>) -> (env: Result<
        BootstrapEnv,
        ArgError,
    >)
        ensures
            arguments_give(
                text_or_empty(level),
                match parsed {
                    Some(parsed) => Some(parsed_views(parsed@)),
                    None => None,
                },
                env_view(env),
            ),
    {
        let entries = match parsed {
            Some(entries) => entries,
            None => {
                return Err(ArgError::NoNodes);
            },
        };
        let ghost given = parsed_views(entries@);
        let mut urls: Vec<String> = Vec::new();
        for url in it: entries
            invariant
                parsed matches Some(entries) && given == parsed_views(entries@),
                given == parsed_views(it.seq()),
                urls.len() == it.index(),
                forall|j: int| 0 <= j < it.index() ==> (#[trigger] given[j]) == Some(texts(urls@)[j]),
        {
            match url {
                Some(url) => {
                    urls.push(url);
                },
                None => {
                    assert(first_invalid_url(given, it.index()));
                    return Err(ArgError::InvalidUrl { position: urls.len() });
                },
            }
        }
        let level_text: &str = match level {
            Some(text) => text,
            None => "",
        };
        proof {
            reveal_strlit("");
            assert(level_text@ =~= text_or_empty(level));
        }
        match parse_i32(level_text) {
            Some(level) => Ok(BootstrapEnv { level, nodes: urls }),
            None => Err(ArgError::InvalidLevel),
        }
    }

    /// Reads the arguments of a run: `level` is the value given for the
    /// level, `nodes` are the values given for the nodes, each `None` where
    /// the argument was not given. The result holds every node as the `url`
    /// crate serializes it; see `arguments_give`.
    pub fn from_args(level: Option<&str>, nodes: Option<Vec<String>>) -> (env: Result<
        BootstrapEnv,
        ArgError,
    >)
        ensures
            arguments_give(
                text_or_empty(level),
                match nodes {
                    Some(nodes) => Some(url_texts(nodes@)),
                    None => None,
                },
                env_view(env),
            ),
    {
        let parsed = match nodes {
            Some(nodes) => {
                let mut parsed: Vec<Option<String>> = Vec::new();
                let mut i: usize = 0;
                while i < nodes.len()
                    invariant
                        i <= nodes.len(),
                        parsed.len() == i,
                        forall|j: int|
                            0 <= j < i ==> (#[trigger] parsed_views(parsed@)[j]) == url_text(
                                nodes[j]@,
                            ),
                    decreases nodes.len() - i,
                {
                    let url = parse_url(nodes[i].as_str());
                    let ghost before = parsed_views(parsed@);
                    parsed.push(url);
                    assert forall|j: int| 0 <= j <= i implies (#[trigger] parsed_views(
                        parsed@,
                    )[j]) == url_text(nodes[j]@) by {
                        if j < i {
                            assert(parsed_views(parsed@)[j] == before[j]);
                        }
                    }
                    i += 1;
                }
                assert(parsed_views(parsed@) =~= url_texts(nodes@));
                Some(parsed)
            },
            None => None,
        };
        BootstrapEnv::from_parsed(level, parsed)
    }

    /// One target for each node, in their order, all with the level as
    /// their threshold.
    pub fn targets(self) -> (targets: Vec<NodeTarget>)
        ensures
            targets.len() == self@.nodes.len(),
            forall|i: int|
                0 <= i < targets.len() ==> (#[trigger] targets[i])@ == (NodeTargetView {
                    endpoint: self@.nodes[i],
                    threshold: self@.level,
                }),
    {
        let threshold: i32 = self.level;
        let ghost nodes = self.nodes@;
        let mut targets: Vec<NodeTarget> = Vec::new();
        for endpoint in it: self.nodes
            invariant
                it.seq() == nodes,
                targets.len() == it.index(),
                forall|i: int|
                    0 <= i < it.index() ==> (#[trigger] targets[i])@ == (NodeTargetView {
                        endpoint: nodes[i]@,
                        threshold,
                    }),
        {
            targets.push(NodeTarget { endpoint, threshold });
        }
        targets
    }
}

impl ArgError {
    /// What to tell the user.
    pub fn message(&self) -> (message: &'static str)
        ensures
            message@ == match *self {
                ArgError::NoNodes => "No nodes provided in the --nodes arg"@,
                ArgError::InvalidUrl { .. } => "Provided value cannot be converted into valid url"@,
                ArgError::InvalidLevel => "Provided value cannot be converted into valid i32"@,
            },
    {
        match self {
            ArgError::NoNodes => "No nodes provided in the --nodes arg",
            ArgError::InvalidUrl { .. } => "Provided value cannot be converted into valid url",
            ArgError::InvalidLevel => "Provided value cannot be converted into valid i32",
        }
    }
}

} // verus!
