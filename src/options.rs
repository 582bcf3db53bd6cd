//! Options of the network operations and the subcommand arguments they
//! select.
use vstd::prelude::*;

verus! {

#[derive(Clone, Debug)]
pub struct FetchOptions {
    pub remote: Option<String>,
    pub all: bool,
}

#[derive(Clone, Debug)]
pub struct PullOptions {
    pub remote: String,
    pub branch: String,
    pub rebase: bool,
    pub autostash: bool,
}

#[derive(Clone, Debug)]
pub struct PushOptions {
    pub branch: String,
    pub remote: String,
    pub remote_branch: String,
    pub push_tags: bool,
    pub force_with_lease: bool,
}

pub open spec fn arg_texts(v: Seq<String>) -> Seq<Seq<char>> {
    v.map_values(|s: String| s@)
}

/// `fetch --all`, or `fetch` of the named remote, "origin" by default.
pub open spec fn fetch_args_spec(o: FetchOptions) -> Seq<Seq<char>> {
    if o.all {
        seq!["fetch"@, "--all"@]
    } else {
        match o.remote {
            Some(r) => seq!["fetch"@, r@],
            None => seq!["fetch"@, "origin"@],
        }
    }
}

/// `pull`, merging or rebasing, optionally stashing, from remote and branch.
pub open spec fn pull_args_spec(o: PullOptions) -> Seq<Seq<char>> {
    seq!["pull"@, if o.rebase {
        "--rebase"@
    } else {
        "--no-rebase"@
    }] + (if o.autostash {
        seq!["--autostash"@]
    } else {
        seq![]
    }) + seq![o.remote@, o.branch@]
}

/// `push`, with the chosen flags, to remote with refspec `branch:remote_branch`.
pub open spec fn push_args_spec(o: PushOptions) -> Seq<Seq<char>> {
    seq!["push"@] + (if o.force_with_lease {
        seq!["--force-with-lease"@]
    } else {
        seq![]
    }) + (if o.push_tags {
        seq!["--tags"@]
    } else {
        seq![]
    }) + seq![o.remote@, o.branch@ + ":"@ + o.remote_branch@]
}

pub fn fetch_args(options: &FetchOptions) -> (r: Vec<String>)
    ensures
        arg_texts(r@) == fetch_args_spec(*options),
{
    let mut v: Vec<String> = Vec::new();
    v.push(String::from_str("fetch"));
    if options.all {
        v.push(String::from_str("--all"));
    } else {
        match &options.remote {
            Some(r) => v.push(r.clone()),
            None => v.push(String::from_str("origin")),
        }
    }
    assert(arg_texts(v@) =~= fetch_args_spec(*options));
    v
}

pub fn pull_args(options: &PullOptions) -> (r: Vec<String>)
    ensures
        arg_texts(r@) == pull_args_spec(*options),
{
    let mut v: Vec<String> = Vec::new();
    v.push(String::from_str("pull"));
    if options.rebase {
        v.push(String::from_str("--rebase"));
    } else {
        v.push(String::from_str("--no-rebase"));
    }
    if options.autostash {
        v.push(String::from_str("--autostash"));
    }
    v.push(options.remote.clone());
    v.push(options.branch.clone());
    assert(arg_texts(v@) =~= pull_args_spec(*options));
    v
}

pub fn push_args(options: &PushOptions) -> (r: Vec<String>)
    ensures
        arg_texts(r@) == push_args_spec(*options),
{
    let mut v: Vec<String> = Vec::new();
    v.push(String::from_str("push"));
    if options.force_with_lease {
        v.push(String::from_str("--force-with-lease"));
    }
    if options.push_tags {
        v.push(String::from_str("--tags"));
    }
    v.push(options.remote.clone());
    let mut refspec = options.branch.clone();
    refspec.append(":");
    refspec.append(options.remote_branch.as_str());
    v.push(refspec);
    assert(arg_texts(v@) =~= push_args_spec(*options));
    v
}

} // verus!
