//! Destinations, aliases and shortcuts, before and after they are committed.
use vstd::prelude::*;
use vstd::string::StrSliceExecFns;

verus! {

/// Destination that has not been committed to the data plane.
#[derive(Debug, Clone, PartialEq, Eq)]
pub struct UncommittedDestination {
    /// The URL (with parameters) to redirect to.
    /// Must be an HTTP URL.
    pub url: String,
    /// Whether the destination is a fallback.
    pub is_fallback: bool,
    /// A description of the URL (and parameters).
    pub description: String,
}

impl UncommittedDestination {
    /// Create a new [`UncommittedDestination`].
    pub fn new(url: &str, is_fallback: bool, description: &str) -> (destination: Self)
        ensures
            destination.url@ == url@,
            destination.is_fallback == is_fallback,
            destination.description@ == description@,
    {
        UncommittedDestination { url: url.to_owned(), is_fallback, description: description.to_owned() }
    }
}

/// Destination that has already been committed to the data plane.
#[derive(Debug, Clone, PartialEq, Eq)]
pub struct CommittedDestination {
    /// The unique ID for the destination.
    pub uid: String,
    /// The URL (with parameters) to redirect to.
    pub url: String,
    /// The number of parameters in the URL.
    pub num_params: i32,
    /// Whether the destination is a fallback.
    pub is_fallback: bool,
    /// Whether the destination is the default fallback.
    pub is_default_fallback: bool,
    /// A description of the URL (and parameters).
    pub description: String,
}

/// Alias that has not been committed to the data plane.
#[derive(Debug, Clone, PartialEq, Eq)]
pub struct UncommittedAlias {
    /// The alias name.
    pub name: String,
}

impl UncommittedAlias {
    pub fn new(name: &str) -> (alias: Self)
        ensures
            alias.name@ == name@,
    {
        UncommittedAlias { name: name.to_owned() }
    }
}

/// Alias that has already been committed to the data plane.
#[derive(Debug, Clone, PartialEq, Eq)]
pub struct CommittedAlias {
    /// The unique ID of the associated destination.
    pub destination_uid: Option<String>,
    /// The unique ID for the alias.
    pub uid: Option<String>,
    /// The alias name.
    pub name: String,
}

/// How two names order, character by character as `String` orders them: `-1` when `a`
/// comes first, `0` when they are equal, `1` when `b` comes first.
pub open spec fn name_order(a: Seq<char>, b: Seq<char>) -> int
    decreases a.len(),
{
    if a.len() == 0 {
        if b.len() == 0 {
            0
        } else {
            -1
        }
    } else if b.len() == 0 {
        1
    } else if a[0] < b[0] {
        -1
    } else if b[0] < a[0] {
        1
    } else {
        name_order(a.skip(1), b.skip(1))
    }
}

proof fn lemma_name_order_range(a: Seq<char>, b: Seq<char>)
    ensures
        -1 <= name_order(a, b) <= 1,
    decreases a.len(),
{
    if a.len() > 0 && b.len() > 0 {
        lemma_name_order_range(a.skip(1), b.skip(1));
    }
}

/// The order of two names, as `name_order` gives it.
fn names_order(a: &str, b: &str) -> (order: i8)
    ensures
        order == name_order(a@, b@),
{
    let n = a.unicode_len();
    let m = b.unicode_len();
    let mut i: usize = 0;
    assert(a@.skip(0) =~= a@ && b@.skip(0) =~= b@);
    while i < n && i < m
        invariant
            n == a@.len(),
            m == b@.len(),
            i <= n,
            i <= m,
            name_order(a@, b@) == name_order(a@.skip(i as int), b@.skip(i as int)),
        decreases n - i,
    {
        let x = a.get_char(i);
        let y = b.get_char(i);
        assert(a@.skip(i as int)[0] == x && b@.skip(i as int)[0] == y);
        if x < y {
            return -1;
        }
        if y < x {
            return 1;
        }
        assert(a@.skip(i as int).skip(1) =~= a@.skip(i + 1));
        assert(b@.skip(i as int).skip(1) =~= b@.skip(i + 1));
        i = i + 1;
    }
    if i < n {
        1
    } else if i < m {
        -1
    } else {
        0
    }
}

impl CommittedAlias {
    /// Order two aliases by name.
    pub fn cmp_by_name(&self, other: &Self) -> (order: std::cmp::Ordering)
        ensures
            (order == std::cmp::Ordering::Less) == (name_order(self.name@, other.name@) == -1),
            (order == std::cmp::Ordering::Equal) == (name_order(self.name@, other.name@) == 0),
            (order == std::cmp::Ordering::Greater) == (name_order(self.name@, other.name@) == 1),
    {
        let order = names_order(self.name.as_str(), other.name.as_str());
        proof {
            lemma_name_order_range(self.name@, other.name@);
        }
        if order < 0 {
            std::cmp::Ordering::Less
        } else if order == 0 {
            std::cmp::Ordering::Equal
        } else {
            std::cmp::Ordering::Greater
        }
    }
}

/// Shortcut that has already been committed to the data plane.
#[derive(Debug, Clone, PartialEq, Eq)]
pub struct CommittedShortcut {
    /// The shortcut destination.
    pub destination: CommittedDestination,
    /// The shortcut aliases.
    pub aliases: Vec<CommittedAlias>,
}

/// List of shortcuts that have already been committed to the data plane.
#[derive(Debug, Clone, PartialEq, Eq)]
pub struct CommittedShortcutList {
    /// The list of shortcuts.
    pub shortcuts: Vec<CommittedShortcut>,
}

} // verus!
