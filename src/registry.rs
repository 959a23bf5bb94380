use vstd::prelude::*;

verus! {

/// A network whose bridge device exists.
#[derive(Debug)]
pub struct Network {
    pub bridge_name: String,
    /// Kernel index of the bridge, by which later operations address it.
    pub bridge_index: u32,
    pub endpoints: Vec<String>,
}

/// What a `Network` stands for.
pub struct NetworkView {
    pub bridge_name: Seq<char>,
    pub bridge_index: u32,
    pub endpoints: Seq<Seq<char>>,
}

impl View for Network {
    type V = NetworkView;

    open spec fn view(&self) -> NetworkView {
        NetworkView {
            bridge_name: self.bridge_name@,
            bridge_index: self.bridge_index,
            endpoints: self.endpoints@.map_values(|e: String| e@),
        }
    }
}

/// The record of a freshly created bridge: no endpoints yet.
pub open spec fn new_network_view(bridge_name: Seq<char>, bridge_index: u32) -> NetworkView {
    NetworkView { bridge_name, bridge_index, endpoints: Seq::empty() }
}

impl Network {
    pub fn new(bridge_name: String, bridge_index: u32) -> (r: Self)
        ensures
            r@ == new_network_view(bridge_name@, bridge_index),
    {
        let r = Network { bridge_name, bridge_index, endpoints: Vec::new() };
        assert(r.endpoints@.map_values(|e: String| e@) =~= Seq::<Seq<char>>::empty());
        r
    }
}

/// The registry of networks, keyed by network id.
pub struct AppState {
    ids: Vec<String>,
    networks: Vec<Network>,
    model: Ghost<Map<Seq<char>, NetworkView>>,
}

impl View for AppState {
    type V = Map<Seq<char>, NetworkView>;

    closed spec fn view(&self) -> Map<Seq<char>, NetworkView> {
        self.model@
    }
}

impl AppState {
    /// The ids are unique, and entry `i` is the record of id `i`.
    pub closed spec fn wf(&self) -> bool {
        &&& self.ids@.len() == self.networks@.len()
        &&& forall|i: int, j: int|
            0 <= i < j < self.ids@.len() ==> #[trigger] self.ids@[i]@ != #[trigger] self.ids@[j]@
        &&& forall|i: int|
            0 <= i < self.ids@.len() ==> self.model@.contains_key(#[trigger] self.ids@[i]@)
                && self.model@[self.ids@[i]@] == self.networks@[i]@
        &&& forall|k: Seq<char>|
            #[trigger] self.model@.contains_key(k) ==> exists|i: int|
                0 <= i < self.ids@.len() && #[trigger] self.ids@[i]@ == k
    }

    /// An empty registry.
    pub fn new() -> (r: Self)
        ensures
            r.wf(),
            r@ == Map::<Seq<char>, NetworkView>::empty(),
    {
        AppState { ids: Vec::new(), networks: Vec::new(), model: Ghost(Map::empty()) }
    }

    fn find(&self, network_id: &String) -> (r: Option<usize>)
        requires
            self.wf(),
        ensures
            match r {
                None => !self@.contains_key(network_id@),
                Some(i) => i < self.ids@.len() && self.ids@[i as int]@ == network_id@,
            },
    {
        let n = self.ids.len();
        let mut i: usize = 0;
        while i < n
            invariant
                self.wf(),
                n == self.ids@.len(),
                i <= n,
                forall|j: int| 0 <= j < i ==> #[trigger] self.ids@[j]@ != network_id@,
            decreases n - i,
        {
            if self.ids[i] == *network_id {
                return Some(i);
            }
            i = i + 1;
        }
        None
    }

    /// Whether a network with this id is registered.
    pub fn contains_network(&self, network_id: &String) -> (r: bool)
        requires
            self.wf(),
        ensures
            r == self@.contains_key(network_id@),
    {
        self.find(network_id).is_some()
    }

    /// The record of a network, if it is registered.
    pub fn get_network(&self, network_id: &String) -> (r: Option<&Network>)
        requires
            self.wf(),
        ensures
            match r {
                None => !self@.contains_key(network_id@),
                Some(n) => self@.contains_key(network_id@) && self@[network_id@] == n@,
            },
    {
        match self.find(network_id) {
            None => None,
            Some(i) => Some(&self.networks[i]),
        }
    }

    /// Registers a network under an id that is not yet taken.
    pub fn insert_network(&mut self, network_id: String, network: Network)
        requires
            old(self).wf(),
            !old(self)@.contains_key(network_id@),
        ensures
            final(self).wf(),
            final(self)@ == old(self)@.insert(network_id@, network@),
    {
        let ghost key = network_id@;
        let ghost value = network@;
        let ghost old_ids = self.ids@;
        assert forall|i: int| 0 <= i < old_ids.len() implies #[trigger] old_ids[i]@ != key by {
            assert(self.model@.contains_key(old_ids[i]@));
        }
        self.ids.push(network_id);
        self.networks.push(network);
        self.model = Ghost(self.model@.insert(key, value));
        let ghost n = self.ids@.len() as int;
        assert forall|k: Seq<char>| #[trigger] self.model@.contains_key(k) implies exists|i: int|
            0 <= i < n && #[trigger] self.ids@[i]@ == k by {
            if k == key {
                assert(self.ids@[n - 1]@ == k);
            } else {
                let i = choose|i: int| 0 <= i < old_ids.len() && #[trigger] old_ids[i]@ == k;
                assert(self.ids@[i]@ == k);
            }
        }
        assert forall|i: int|
            0 <= i < n implies self.model@.contains_key(#[trigger] self.ids@[i]@)
            && self.model@[self.ids@[i]@] == self.networks@[i]@ by {
            if i < n - 1 {
                assert(self.ids@[i] == old_ids[i]);
            }
        }
    }

    /// Unregisters a network; nothing changes if it is not registered.
    pub fn remove_network(&mut self, network_id: &String)
        requires
            old(self).wf(),
        ensures
            final(self).wf(),
            final(self)@ == old(self)@.remove(network_id@),
    {
        match self.find(network_id) {
            None => {
                assert(self.model@.remove(network_id@) =~= self.model@);
            },
            Some(idx) => {
                let ghost key = network_id@;
                let ghost old_ids = self.ids@;
                let ghost old_nets = self.networks@;
                self.ids.remove(idx);
                self.networks.remove(idx);
                self.model = Ghost(self.model@.remove(key));
                let ghost n = self.ids@.len() as int;
                let ghost d = idx as int;
                assert forall|i: int| 0 <= i < n implies #[trigger] self.ids@[i] == (if i < d {
                    old_ids[i]
                } else {
                    old_ids[i + 1]
                }) && self.networks@[i] == (if i < d {
                    old_nets[i]
                } else {
                    old_nets[i + 1]
                }) by {}
                assert forall|i: int, j: int|
                    0 <= i < j < n implies #[trigger] self.ids@[i]@ != #[trigger] self.ids@[j]@ by {
                    let oi = if i < d { i } else { i + 1 };
                    let oj = if j < d { j } else { j + 1 };
                    assert(old_ids[oi]@ != old_ids[oj]@);
                }
                assert forall|i: int|
                    0 <= i < n implies self.model@.contains_key(#[trigger] self.ids@[i]@)
                    && self.model@[self.ids@[i]@] == self.networks@[i]@ by {
                    let oi = if i < d { i } else { i + 1 };
                    assert(old_ids[oi]@ != old_ids[d]@);
                }
                assert forall|k: Seq<char>| #[trigger] self.model@.contains_key(k) implies exists|
                    i: int,
                | 0 <= i < n && #[trigger] self.ids@[i]@ == k by {
                    let oi = choose|oi: int| 0 <= oi < old_ids.len() && #[trigger] old_ids[oi]@ == k;
                    assert(oi != d);
                    let i = if oi < d { oi } else { oi - 1 };
                    assert(self.ids@[i]@ == k);
                }
            },
        }
    }
}

} // verus!
