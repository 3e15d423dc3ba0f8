//! The registry of known sidecars and how each one is asked to stop.
use vstd::prelude::*;
use vstd::string::StringExecFns;

verus! {

/// The HTTP verbs a sidecar's control endpoint may expect.
#[derive(Clone, Copy, Debug, PartialEq, Eq, Structural)]
pub enum Method {
    Get,
    Post,
    Put,
    Delete,
}

pub open spec fn method_text(m: Method) -> Seq<char> {
    match m {
        Method::Get => "GET"@,
        Method::Post => "POST"@,
        Method::Put => "PUT"@,
        Method::Delete => "DELETE"@,
    }
}

impl Method {
    /// The verb as it is written in a request line.
    pub fn as_str(&self) -> (r: &'static str)
        ensures
            r@ == method_text(*self),
    {
        match self {
            Method::Get => "GET",
            Method::Post => "POST",
            Method::Put => "PUT",
            Method::Delete => "DELETE",
        }
    }
}

/// How a sidecar is asked to shut down.
#[derive(Debug)]
pub enum Action {
    /// An HTTP request with this method and path, sent to this port inside the pod.
    Portforward(Method, String, u16),
    /// A command line, token by token, run inside the sidecar's container.
    Exec(Vec<String>),
}

/// The mathematical value of an [`Action`].
pub enum ActionView {
    Portforward(Method, Seq<char>, u16),
    Exec(Seq<Seq<char>>),
}

pub open spec fn strings_view(v: Seq<String>) -> Seq<Seq<char>> {
    v.map_values(|s: String| s@)
}

impl View for Action {
    type V = ActionView;

    open spec fn view(&self) -> ActionView {
        match self {
            Action::Portforward(m, p, port) => ActionView::Portforward(*m, p@, *port),
            Action::Exec(cmd) => ActionView::Exec(strings_view(cmd@)),
        }
    }
}

/// The table of sidecar names and actions, in order.
pub type RegistryView = Seq<(Seq<char>, ActionView)>;

/// No sidecar name occurs twice.
pub open spec fn keys_unique(t: RegistryView) -> bool {
    forall|i: int, j: int| 0 <= i < t.len() && 0 <= j < t.len() && t[i].0 == t[j].0 ==> i == j
}

/// What the table maps `name` to.
pub open spec fn registry_get(t: RegistryView, name: Seq<char>) -> Option<ActionView> {
    if exists|i: int| 0 <= i < t.len() && t[i].0 == name {
        Some(t[choose|i: int| 0 <= i < t.len() && t[i].0 == name].1)
    } else {
        None
    }
}

/// The sidecars this controller knows how to stop.
pub open spec fn default_table() -> RegistryView {
    seq![
        ("cloudsql-proxy"@, ActionView::Portforward(Method::Post, "/quitquitquit"@, 9091)),
        ("vks-sidecar"@, ActionView::Exec(seq!["/bin/kill"@, "-s"@, "INT"@, "1"@])),
        ("istio-proxy"@, ActionView::Portforward(Method::Post, "/quitquitquit"@, 15000)),
        ("linkerd-proxy"@, ActionView::Portforward(Method::Post, "/shutdown"@, 4191)),
    ]
}

/// An immutable mapping from sidecar container name to its shutdown action.
pub struct ActionRegistry {
    entries: Vec<(String, Action)>,
}

impl View for ActionRegistry {
    type V = RegistryView;

    closed spec fn view(&self) -> RegistryView {
        self.entries@.map_values(|e: (String, Action)| (e.0@, e.1@))
    }
}

impl ActionRegistry {
    pub open spec fn wf(&self) -> bool {
        keys_unique(self@)
    }

    /// The shutdown action registered for the container `name`, if any.
    pub fn get(&self, name: &String) -> (r: Option<&Action>)
        requires
            self.wf(),
        ensures
            match r {
                Some(a) => registry_get(self@, name@) == Some(a@),
                None => registry_get(self@, name@).is_none(),
            },
    {
        let mut i: usize = 0;
        while i < self.entries.len()
            invariant
                i <= self.entries@.len(),
                self@.len() == self.entries@.len(),
                forall|j: int| 0 <= j < i ==> self@[j].0 != name@,
                self.wf(),
            decreases self.entries@.len() - i,
        {
            assert(self@[i as int] == (self.entries@[i as int].0@, self.entries@[i as int].1@));
            if self.entries[i].0 == *name {
                proof {
                    let t = self@;
                    assert(0 <= i < t.len() && t[i as int].0 == name@);
                    let c = choose|k: int| 0 <= k < t.len() && t[k].0 == name@;
                    assert(c == i);
                }
                return Some(&self.entries[i].1);
            }
            i += 1;
        }
        None
    }
}

fn owned(s: &str) -> (r: String)
    ensures
        r@ == s@,
{
    String::from_str(s)
}

/// Builds the registry of known sidecars.
///
/// Adding or changing a sidecar's shutdown behaviour means editing this table.
pub fn generate() -> (r: ActionRegistry)
    ensures
        r.wf(),
        r@ == default_table(),
{
    let kill = vec![owned("/bin/kill"), owned("-s"), owned("INT"), owned("1")];
    assert(strings_view(kill@) =~= seq!["/bin/kill"@, "-s"@, "INT"@, "1"@]);
    let entries = vec![
        (owned("cloudsql-proxy"), Action::Portforward(Method::Post, owned("/quitquitquit"), 9091)),
        (
            owned("vks-sidecar"),
            Action::Exec(kill),
        ),
        (owned("istio-proxy"), Action::Portforward(Method::Post, owned("/quitquitquit"), 15000)),
        (owned("linkerd-proxy"), Action::Portforward(Method::Post, owned("/shutdown"), 4191)),
    ];
    let r = ActionRegistry { entries };
    proof {
        reveal_strlit("cloudsql-proxy");
        reveal_strlit("vks-sidecar");
        reveal_strlit("istio-proxy");
        reveal_strlit("linkerd-proxy");
        let t = default_table();
        assert(r@.len() == 4);
        assert(r@[0] == t[0]);
        assert(r@[1] == t[1]);
        assert(r@[2] == t[2]);
        assert(r@[3] == t[3]);
        assert(r@ =~= t);
        assert(t[0].0.len() != t[1].0.len());
        assert(t[0].0.len() != t[2].0.len());
        assert(t[0].0.len() != t[3].0.len());
        assert(t[1].0[0] != t[2].0[0]);
        assert(t[1].0.len() != t[3].0.len());
        assert(t[2].0.len() != t[3].0.len());
    }
    r
}

} // verus!
