use vstd::prelude::*;

verus! {

/// A local branch, with the remote branch it tracks, if any.
#[derive(Clone, Debug)]
pub struct LocalBranch {
    pub name: String,
    pub remote_name: Option<String>,
}

/// A remote branch, with the local branch that tracks it, if any.
#[derive(Clone, Debug)]
pub struct RemoteBranch {
    pub name: String,
    pub local_name: Option<String>,
}

/// A branch offered for checkout.
#[derive(Clone, Debug)]
pub enum Branch {
    Local(LocalBranch),
    Remote(RemoteBranch),
}

/// The text of an optional string.
pub open spec fn opt_view(s: Option<String>) -> Option<Seq<char>> {
    match s {
        Some(t) => Some(t@),
        None => None,
    }
}

/// A branch as the model sees it: its name and the name it is paired with
/// (the tracked remote branch of a local one, the tracking local branch of a
/// remote one).
pub enum BranchView {
    Local(Seq<char>, Option<Seq<char>>),
    Remote(Seq<char>, Option<Seq<char>>),
}

impl BranchView {
    /// The name of the branch.
    pub open spec fn name(self) -> Seq<char> {
        match self {
            BranchView::Local(n, _) => n,
            BranchView::Remote(n, _) => n,
        }
    }
}

impl View for Branch {
    type V = BranchView;

    open spec fn view(&self) -> BranchView {
        match self {
            Branch::Local(b) => BranchView::Local(b.name@, opt_view(b.remote_name)),
            Branch::Remote(b) => BranchView::Remote(b.name@, opt_view(b.local_name)),
        }
    }
}

/// The views of a list of branches.
pub open spec fn branch_views(bs: Seq<Branch>) -> Seq<BranchView> {
    bs.map_values(|b: Branch| b@)
}

impl Branch {
    /// The name of the branch.
    pub fn name(self) -> (r: String)
        ensures
            r@ == self@.name(),
    {
        match self {
            Branch::Local(local_branch) => local_branch.name,
            Branch::Remote(remote_branch) => remote_branch.name,
        }
    }

    /// The text the branch is shown and matched by: its name.
    pub fn text(&self) -> (r: &str)
        ensures
            r@ == self@.name(),
    {
        match self {
            Branch::Local(local_branch) => local_branch.name.as_str(),
            Branch::Remote(remote_branch) => remote_branch.name.as_str(),
        }
    }
}

/// Which kind of branches to list.
#[derive(Clone, Copy, Debug, PartialEq, Eq, Structural)]
pub enum BranchType {
    Local,
    Remote,
}

/// The kind of branches to list for the command-line flags: remote ones
/// only, local ones only, or both when neither flag is given.
pub fn branch_filter(remote_only: bool, local_only: bool) -> (r: Option<BranchType>)
    requires
        !(remote_only && local_only),
    ensures
        remote_only ==> r == Some(BranchType::Remote),
        local_only ==> r == Some(BranchType::Local),
        !remote_only && !local_only ==> r is None,
{
    if remote_only {
        Some(BranchType::Remote)
    } else if local_only {
        Some(BranchType::Local)
    } else {
        None
    }
}

/// The branch checked out now, from the short name of `HEAD`.
pub fn get_current_branch(shorthand: String) -> (r: Branch)
    ensures
        r@ == BranchView::Local(shorthand@, None),
{
    Branch::Local(LocalBranch { name: shorthand, remote_name: None })
}

/// What the repository says of one local branch: its name, and the name of
/// the remote branch it tracks. `None` stands for a lookup that failed; a
/// tracked branch without a name is `Some(None)`.
pub struct LocalListing {
    pub name: Option<String>,
    pub upstream: Option<Option<String>>,
}

/// A listing as the model sees it.
pub open spec fn listing_view(l: LocalListing) -> (Option<Seq<char>>, Option<Option<Seq<char>>>) {
    (
        opt_view(l.name),
        match l.upstream {
            Some(u) => Some(opt_view(u)),
            None => None,
        },
    )
}

/// The local branches of a listing: those whose name and tracked branch
/// could both be looked up, in order.
pub open spec fn local_branches(ls: Seq<(Option<Seq<char>>, Option<Option<Seq<char>>>)>) -> Seq<
    BranchView,
>
    decreases ls.len(),
{
    if ls.len() == 0 {
        Seq::empty()
    } else {
        let rest = local_branches(ls.drop_last());
        match ls.last() {
            (Some(n), Some(up)) => rest.push(BranchView::Local(n, up)),
            _ => rest,
        }
    }
}

/// The name of the local branch tracking the remote branch `remote`: the
/// last one in the list, if several do.
pub open spec fn local_for(locals: Seq<BranchView>, remote: Seq<char>) -> Option<Seq<char>>
    decreases locals.len(),
{
    if locals.len() == 0 {
        None
    } else {
        match locals.last() {
            BranchView::Local(n, Some(up)) => if up == remote {
                Some(n)
            } else {
                local_for(locals.drop_last(), remote)
            },
            _ => local_for(locals.drop_last(), remote),
        }
    }
}

/// The remote branches of a listing of names: those whose name could be
/// looked up, in order, each paired with the local branch tracking it.
pub open spec fn remote_branches(rs: Seq<Option<Seq<char>>>, locals: Seq<BranchView>) -> Seq<
    BranchView,
>
    decreases rs.len(),
{
    if rs.len() == 0 {
        Seq::empty()
    } else {
        let rest = remote_branches(rs.drop_last(), locals);
        match rs.last() {
            Some(n) => rest.push(BranchView::Remote(n, local_for(locals, n))),
            None => rest,
        }
    }
}

/// The listings as the model sees them.
pub open spec fn listings_view(ls: Seq<LocalListing>) -> Seq<
    (Option<Seq<char>>, Option<Option<Seq<char>>>),
> {
    ls.map_values(|l: LocalListing| listing_view(l))
}

/// The names of a listing of remote branches as the model sees them.
pub open spec fn names_view(rs: Seq<Option<String>>) -> Seq<Option<Seq<char>>> {
    rs.map_values(|r: Option<String>| opt_view(r))
}

fn copy_opt(s: &Option<String>) -> (r: Option<String>)
    ensures
        opt_view(r) == opt_view(*s),
{
    match s {
        Some(t) => Some(t.clone()),
        None => None,
    }
}

impl Branch {
    fn name_ref(&self) -> (r: &String)
        ensures
            r@ == self@.name(),
    {
        match self {
            Branch::Local(b) => &b.name,
            Branch::Remote(b) => &b.name,
        }
    }

    /// A copy of the branch.
    pub fn duplicate(&self) -> (r: Branch)
        ensures
            r@ == self@,
    {
        match self {
            Branch::Local(b) => Branch::Local(
                LocalBranch { name: b.name.clone(), remote_name: copy_opt(&b.remote_name) },
            ),
            Branch::Remote(b) => Branch::Remote(
                RemoteBranch { name: b.name.clone(), local_name: copy_opt(&b.local_name) },
            ),
        }
    }
}

fn collect_locals(listings: &Vec<LocalListing>) -> (r: Vec<Branch>)
    ensures
        branch_views(r@) == local_branches(listings_view(listings@)),
{
    let ghost lv = listings_view(listings@);
    let mut out: Vec<Branch> = Vec::new();
    let mut k: usize = 0;
    while k < listings.len()
        invariant
            k <= listings@.len(),
            lv == listings_view(listings@),
            branch_views(out@) == local_branches(lv.take(k as int)),
        decreases listings@.len() - k,
    {
        assert(lv.take(k + 1).drop_last() == lv.take(k as int));
        let ghost before = out@;
        let l = &listings[k];
        match (&l.name, &l.upstream) {
            (Some(n), Some(up)) => {
                let b = Branch::Local(LocalBranch { name: n.clone(), remote_name: copy_opt(up) });
                out.push(b);
                assert(branch_views(out@) == branch_views(before).push(b@));
            },
            _ => {},
        }
        k += 1;
    }
    assert(lv.take(k as int) == lv);
    out
}

fn lookup_local(locals: &Vec<Branch>, remote: &String) -> (r: Option<String>)
    ensures
        opt_view(r) == local_for(branch_views(locals@), remote@),
{
    let ghost views = branch_views(locals@);
    let mut i: usize = locals.len();
    assert(views.take(i as int) =~= views);
    while i > 0
        invariant
            i <= locals@.len(),
            views == branch_views(locals@),
            local_for(views, remote@) == local_for(views.take(i as int), remote@),
        decreases i,
    {
        assert(views.take(i as int).drop_last() == views.take(i - 1));
        match &locals[i - 1] {
            Branch::Local(b) => match &b.remote_name {
                Some(up) => {
                    if *up == *remote {
                        return Some(b.name.clone());
                    }
                },
                None => {},
            },
            Branch::Remote(_) => {},
        }
        i -= 1;
    }
    None
}

fn collect_remotes(remotes: &Vec<Option<String>>, locals: &Vec<Branch>) -> (r: Vec<Branch>)
    ensures
        branch_views(r@) == remote_branches(names_view(remotes@), branch_views(locals@)),
{
    let ghost rv = names_view(remotes@);
    let mut out: Vec<Branch> = Vec::new();
    let mut k: usize = 0;
    while k < remotes.len()
        invariant
            k <= remotes@.len(),
            rv == names_view(remotes@),
            branch_views(out@) == remote_branches(rv.take(k as int), branch_views(locals@)),
        decreases remotes@.len() - k,
    {
        assert(rv.take(k + 1).drop_last() == rv.take(k as int));
        let ghost before = out@;
        match &remotes[k] {
            Some(n) => {
                let b = Branch::Remote(
                    RemoteBranch { name: n.clone(), local_name: lookup_local(locals, n) },
                );
                out.push(b);
                assert(branch_views(out@) == branch_views(before).push(b@));
            },
            None => {},
        }
        k += 1;
    }
    assert(rv.take(k as int) == rv);
    out
}

/// The branches to offer, from what the repository lists: the local
/// branches whose lookups succeeded, then the remote ones, each paired with
/// the local branch tracking it; only one kind when `filter` asks for it.
pub fn get_branches(
    listings: &Vec<LocalListing>,
    remotes: &Vec<Option<String>>,
    filter: Option<BranchType>,
) -> (r: Vec<Branch>)
    ensures
        ({
            let locals = local_branches(listings_view(listings@));
            let remote = remote_branches(names_view(remotes@), locals);
            branch_views(r@) == match filter {
                Some(BranchType::Local) => locals,
                Some(BranchType::Remote) => remote,
                None => locals + remote,
            }
        }),
{
    let mut locals = collect_locals(listings);
    if let Some(BranchType::Local) = filter {
        return locals;
    }
    let mut remote = collect_remotes(remotes, &locals);
    if let Some(BranchType::Remote) = filter {
        return remote;
    }
    let ghost l = locals@;
    let ghost rm = remote@;
    locals.append(&mut remote);
    assert(branch_views(locals@) == branch_views(l) + branch_views(rm));
    locals
}

/// The branches of `bs` not named `name`, in order.
pub open spec fn others(bs: Seq<BranchView>, name: Seq<char>) -> Seq<BranchView>
    decreases bs.len(),
{
    if bs.len() == 0 {
        Seq::empty()
    } else {
        let rest = others(bs.drop_last(), name);
        if bs.last().name() == name {
            rest
        } else {
            rest.push(bs.last())
        }
    }
}

/// The branches to offer: the current branch first, unless only remote
/// branches are asked for, then every other branch of the list, in order.
pub fn candidates(current: &Branch, branches: &Vec<Branch>, remote_only: bool) -> (r: Vec<Branch>)
    ensures
        branch_views(r@) == (if remote_only {
            Seq::empty()
        } else {
            seq![current@]
        }) + others(branch_views(branches@), current@.name()),
{
    let name = current.name_ref().clone();
    let ghost views = branch_views(branches@);
    let ghost head: Seq<BranchView> = if remote_only {
        Seq::empty()
    } else {
        seq![current@]
    };
    let mut out: Vec<Branch> = Vec::new();
    if !remote_only {
        out.push(current.duplicate());
    }
    assert(branch_views(out@) == head + others(views.take(0), current@.name()));
    let mut k: usize = 0;
    while k < branches.len()
        invariant
            k <= branches@.len(),
            views == branch_views(branches@),
            name@ == current@.name(),
            branch_views(out@) == head + others(views.take(k as int), current@.name()),
        decreases branches@.len() - k,
    {
        assert(views.take(k + 1).drop_last() == views.take(k as int));
        let ghost before = out@;
        if *branches[k].name_ref() != name {
            let b = branches[k].duplicate();
            out.push(b);
            assert(branch_views(out@) == branch_views(before).push(b@));
        }
        k += 1;
    }
    assert(views.take(k as int) == views);
    out
}

/// The arguments to `git` that check out a local branch.
pub fn checkout_local_branch(branch: &LocalBranch) -> (r: Vec<String>)
    ensures
        r@.map_values(|a: String| a@) == seq!["checkout"@, branch.name@],
{
    let mut args: Vec<String> = Vec::new();
    args.push(String::from_str("checkout"));
    args.push(branch.name.clone());
    assert(args@.map_values(|a: String| a@) =~= seq!["checkout"@, branch.name@]);
    args
}

/// The arguments to `git` that check out a remote branch: the local branch
/// tracking it when there is one, else a new local branch of its name.
pub fn checkout_remote_branch(branch: &RemoteBranch) -> (r: Vec<String>)
    ensures
        r@.map_values(|a: String| a@) == match branch.local_name {
            Some(l) => seq!["checkout"@, l@],
            None => seq!["checkout"@, "-b"@, branch.name@],
        },
{
    let mut args: Vec<String> = Vec::new();
    args.push(String::from_str("checkout"));
    match &branch.local_name {
        Some(local_branch_name) => {
            args.push(local_branch_name.clone());
        },
        None => {
            args.push(String::from_str("-b"));
            args.push(branch.name.clone());
        },
    }
    assert(args@.map_values(|a: String| a@) =~= match branch.local_name {
        Some(l) => seq!["checkout"@, l@],
        None => seq!["checkout"@, "-b"@, branch.name@],
    });
    args
}

/// The arguments to `git` that check out the branch.
pub fn checkout(branch: &Branch) -> (r: Vec<String>)
    ensures
        r@.map_values(|a: String| a@) == match branch {
            Branch::Local(b) => seq!["checkout"@, b.name@],
            Branch::Remote(b) => match b.local_name {
                Some(l) => seq!["checkout"@, l@],
                None => seq!["checkout"@, "-b"@, b.name@],
            },
        },
{
    match branch {
        Branch::Local(branch) => checkout_local_branch(branch),
        Branch::Remote(branch) => checkout_remote_branch(branch),
    }
}

} // verus!
