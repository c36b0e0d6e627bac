use std::collections::HashMap;
use vstd::prelude::*;
use vstd::string::StringExecFns;

use crate::message::{ClientMessageView, FromClientMessage, FromServerMessage, ServerMessageView};

verus! {

broadcast use vstd::std_specs::hash::group_hash_axioms;

/// Model of an optional string.
pub open spec fn opt_view(s: Option<String>) -> Option<Seq<char>> {
    match s {
        Some(t) => Some(t@),
        None => None,
    }
}

/// The model of a name is the name's characters, and no name stays no name.
pub proof fn lemma_opt_view_keeps_the_name(s: Option<String>)
    ensures
        s matches Some(t) ==> opt_view(s) == Some(t@),
        s is None ==> opt_view(s) is None,
{
}

/// What a session knows about its client: the name it logged in with, if any.
pub struct ClientData {
    login: Option<String>,
}

impl View for ClientData {
    type V = Option<Seq<char>>;

    closed spec fn view(&self) -> Option<Seq<char>> {
        opt_view(self.login)
    }
}

impl ClientData {
    /// A session that has not logged in yet.
    pub fn new() -> (c: Self)
        ensures
            c@ == None::<Seq<char>>,
    {
        ClientData { login: None }
    }

    /// Records (or clears) the name of the client.
    pub fn set_login(&mut self, login: Option<String>)
        ensures
            final(self)@ == opt_view(login),
    {
        self.login = login;
    }

    /// The name the client logged in with, if any.
    pub fn get_login(&self) -> (login: Option<String>)
        ensures
            opt_view(login) == self@,
    {
        match &self.login {
            Some(name) => Some(name.clone()),
            None => None,
        }
    }
}


/// The chat line that a session's message becomes: the client's name (or
/// `nc` when it has not logged in), ` : `, then the text.
pub open spec fn chat_line_spec(login: Option<Seq<char>>, txt: Seq<char>) -> Seq<char> {
    let name = match login {
        Some(n) => n,
        None => "nc"@,
    };
    name + " : "@ + txt
}

/// What the server sends to the chat boxes for a line of text: the line
/// `reload` asks every client to reload its page, any other line is shown.
pub open spec fn chat_box_message_spec(txt: Seq<char>) -> ServerMessageView {
    if txt == "reload"@ {
        ServerMessageView::Reload
    } else {
        ServerMessageView::Chat(txt)
    }
}

/// Builds the chat line for a message `txt` from a client named `login`.
pub fn chat_line(login: Option<String>, txt: &str) -> (line: String)
    ensures
        line@ == chat_line_spec(opt_view(login), txt@),
        line@ == (match login {
            Some(n) => n@,
            None => "nc"@,
        }) + " : "@ + txt@,
{
    let mut line = match login {
        Some(name) => name,
        None => String::from_str("nc"),
    };
    line.append(" : ");
    line.append(txt);
    line
}

/// Chooses the server message for a line of text (see [`chat_box_message_spec`]).
pub fn chat_box_message(txt: String) -> (msg: FromServerMessage)
    ensures
        msg@ == chat_box_message_spec(txt@),
        (msg is Reload) <==> txt@ == "reload"@,
        msg matches FromServerMessage::Chat(t) ==> t@ == txt@,
{
    let reload = String::from_str("reload");
    if txt == reload {
        FromServerMessage::Reload
    } else {
        FromServerMessage::Chat(txt)
    }
}

/// A message to deliver, and the sessions to deliver it to.
pub struct Broadcast {
    pub message: FromServerMessage,
    pub recipients: Vec<usize>,
}

/// The chat server: the sessions that connected, each under the id it was
/// given, and the id the next session will get.
///
/// Ids are handed out in order from 0 and never reused, so the registered
/// ids are always exactly those below the next id.
pub struct Server<A> {
    addrs: HashMap<usize, A>,
    count: usize,
}

/// The ids `0 .. n`.
pub open spec fn ids_below(n: nat) -> Set<usize> {
    Set::new(|k: usize| (k as nat) < n)
}

/// The set `0 .. n` holds exactly the ids below `n`.
pub proof fn lemma_ids_below_members(n: nat, k: usize)
    ensures
        ids_below(n).contains(k) <==> (k as nat) < n,
{
}

/// How a registration changes the server: `after` is `before` with `addr`
/// registered under `id`, the id that was next, and the next id moved on by one.
pub open spec fn registers<A>(before: Server<A>, after: Server<A>, addr: A, id: usize) -> bool {
    &&& id == before.next_id_spec()
    &&& after.clients() == before.clients().insert(id, addr)
    &&& after.next_id_spec() == before.next_id_spec() + 1
}

/// The message of a broadcast, if there is one.
pub open spec fn broadcast_message(out: Option<Broadcast>) -> Option<ServerMessageView> {
    match out {
        Some(b) => Some(b.message@),
        None => None,
    }
}

/// How the server treats a message from a client whose session knew the
/// name `before`: the session then knows `after`, and `out` is what is
/// broadcast. A login records the name and broadcasts nothing; a chat
/// message leaves the name alone and broadcasts the chat line.
pub open spec fn entry_effect(
    payload: ClientMessageView,
    before: Option<Seq<char>>,
    after: Option<Seq<char>>,
    out: Option<ServerMessageView>,
) -> bool {
    match payload {
        ClientMessageView::Login(name) => after == Some(name) && out is None,
        ClientMessageView::ChatMsg(txt) => after == before && out == Some(
            ServerMessageView::Chat(chat_line_spec(before, txt)),
        ),
    }
}

/// A client that logged in is named in each chat line it sends afterwards,
/// and keeps its name: after a login as `name` and then a chat message
/// `txt`, the server broadcasts `name : txt` and the session still knows
/// `name`.
pub proof fn lemma_chat_after_login_is_signed(
    name: Seq<char>,
    txt: Seq<char>,
    c0: Option<Seq<char>>,
    c1: Option<Seq<char>>,
    c2: Option<Seq<char>>,
    o1: Option<ServerMessageView>,
    o2: Option<ServerMessageView>,
)
    requires
        entry_effect(ClientMessageView::Login(name), c0, c1, o1),
        entry_effect(ClientMessageView::ChatMsg(txt), c1, c2, o2),
    ensures
        o1 is None,
        o2 == Some(ServerMessageView::Chat(name + " : "@ + txt)),
        c2 == Some(name),
{
}

/// What the server sends for a line of text: `Reload` exactly for the line
/// `reload`, and for every other line that very line as chat.
pub proof fn lemma_chat_box_message_law(txt: Seq<char>)
    ensures
        (chat_box_message_spec(txt) == ServerMessageView::Reload) <==> txt == "reload"@,
        txt != "reload"@ ==> chat_box_message_spec(txt) == ServerMessageView::Chat(txt),
{
}

/// A chat line is the sender's name (`nc` without one), then ` : `, then the
/// text unchanged: its first characters are the name, the three after them
/// are ` : `, and the rest is the text.
pub proof fn lemma_chat_line_parts(login: Option<Seq<char>>, txt: Seq<char>)
    ensures
        ({
            let name = match login {
                Some(n) => n,
                None => "nc"@,
            };
            let line = chat_line_spec(login, txt);
            &&& line.len() == name.len() as int + 3 + txt.len()
            &&& line.subrange(0, name.len() as int) == name
            &&& line.subrange(name.len() as int, name.len() as int + 3) == " : "@
            &&& line.subrange(name.len() as int + 3, line.len() as int) == txt
        }),
{
    reveal_strlit(" : ");
    let name = match login {
        Some(n) => n,
        None => "nc"@,
    };
    let line = chat_line_spec(login, txt);
    assert(line.subrange(0, name.len() as int) =~= name);
    assert(line.subrange(name.len() as int, name.len() as int + 3) =~= " : "@);
    assert(line.subrange(name.len() as int + 3, line.len() as int) =~= txt);
}

/// Every chat message is broadcast, and never changes the session's name:
/// whatever the session knew before, afterwards it knows the same, and the
/// broadcast is the chat line `name : txt`, with `nc` for a session without
/// a name.
pub proof fn lemma_every_chat_message_is_broadcast(
    txt: Seq<char>,
    before: Option<Seq<char>>,
    after: Option<Seq<char>>,
    out: Option<ServerMessageView>,
)
    requires
        entry_effect(ClientMessageView::ChatMsg(txt), before, after, out),
    ensures
        after == before,
        out == Some(ServerMessageView::Chat(
            (match before {
                Some(n) => n,
                None => "nc"@,
            }) + " : "@ + txt,
        )),
        before is None ==> out == Some(ServerMessageView::Chat("nc"@ + " : "@ + txt)),
{
}

/// A login records exactly the given name and broadcasts nothing, whatever
/// the session knew before.
pub proof fn lemma_login_records_name(
    name: Seq<char>,
    before: Option<Seq<char>>,
    after: Option<Seq<char>>,
    out: Option<ServerMessageView>,
)
    requires
        entry_effect(ClientMessageView::Login(name), before, after, out),
    ensures
        after == Some(name),
        out is None,
{
}

/// Two chat messages in a row from a session without a name are both
/// signed `nc`, and the session still has no name.
pub proof fn lemma_anonymous_stays_anonymous(
    t1: Seq<char>,
    t2: Seq<char>,
    c1: Option<Seq<char>>,
    c2: Option<Seq<char>>,
    o1: Option<ServerMessageView>,
    o2: Option<ServerMessageView>,
)
    requires
        entry_effect(ClientMessageView::ChatMsg(t1), None, c1, o1),
        entry_effect(ClientMessageView::ChatMsg(t2), c1, c2, o2),
    ensures
        c1 is None,
        c2 is None,
        o1 == Some(ServerMessageView::Chat("nc"@ + " : "@ + t1)),
        o2 == Some(ServerMessageView::Chat("nc"@ + " : "@ + t2)),
{
}

/// A registration adds exactly one session, under the id that was next,
/// and leaves the address of every session registered before untouched.
pub proof fn lemma_registration_keeps_others<A>(before: Server<A>, after: Server<A>, addr: A, id: usize)
    requires
        before.clients().dom() == ids_below(before.next_id_spec()),
        registers(before, after, addr, id),
    ensures
        id == before.next_id_spec(),
        after.next_id_spec() == before.next_id_spec() + 1,
        after.clients().contains_key(id),
        after.clients()[id] == addr,
        after.clients().dom() == before.clients().dom().insert(id),
        forall|k: usize| #[trigger] before.clients().contains_key(k) ==>
            after.clients().contains_key(k) && after.clients()[k] == before.clients()[k],
{
    assert(after.clients().dom() =~= before.clients().dom().insert(id));
}

/// Starting from a server without sessions, after any number of
/// registrations the server holds exactly the registered addresses, the
/// `i`-th one under id `i`.
pub proof fn lemma_registrations_in_order<A>(states: Seq<Server<A>>, addrs: Seq<A>)
    requires
        states.len() == addrs.len() + 1,
        states[0].clients() == Map::<usize, A>::empty(),
        states[0].next_id_spec() == 0,
        forall|i: int| 0 <= i < addrs.len() ==> #[trigger] registers(states[i], states[i + 1], addrs[i], i as usize),
    ensures
        states.last().next_id_spec() == addrs.len(),
        forall|k: usize| #[trigger] states.last().clients().contains_key(k) <==> (k as int) < addrs.len(),
        forall|k: usize| (k as int) < addrs.len() ==> #[trigger] states.last().clients()[k] == addrs[k as int],
    decreases addrs.len(),
{
    if addrs.len() > 0 {
        let n = addrs.len() - 1;
        let s2 = states.drop_last();
        let a2 = addrs.drop_last();
        assert forall|i: int| 0 <= i < a2.len() implies #[trigger] registers(s2[i], s2[i + 1], a2[i], i as usize) by {
            assert(registers(states[i], states[i + 1], addrs[i], i as usize));
        }
        lemma_registrations_in_order(s2, a2);
        assert(registers(states[n], states[n + 1], addrs[n], n as usize));
        assert(s2.last() == states[n]);
        assert(states[n].clients().dom() =~= ids_below(states[n].next_id_spec()));
        lemma_registration_keeps_others(states[n], states[n + 1], addrs[n], n as usize);
        assert(states.last() == states[n + 1]);
        assert(s2.last() == states[n]);
    }
}

/// A line of chat is never the line `reload`: it holds ` : ` after the name.
pub proof fn lemma_chat_line_is_never_reload(login: Option<Seq<char>>, txt: Seq<char>)
    ensures
        chat_line_spec(login, txt) != "reload"@,
{
    reveal_strlit("reload");
    reveal_strlit(" : ");
    reveal_strlit("nc");
    let name = match login {
        Some(n) => n,
        None => "nc"@,
    };
    let line = chat_line_spec(login, txt);
    assert(" : "@.len() == 3);
    assert(line.len() == name.len() as int + 3 + txt.len());
    assert(line[name.len() as int + 1] == ':');
    if line == "reload"@ {
        assert("reload"@.len() == 6);
        assert(name.len() + 1 < 6);
        assert(line[name.len() as int + 1] != ':');
    }
}

/// No message of a client makes the server ask for a reload: whatever the
/// client's name and text, the chat box receives the chat line itself.
pub proof fn lemma_client_messages_never_reload(login: Option<Seq<char>>, txt: Seq<char>)
    ensures
        chat_box_message_spec(chat_line_spec(login, txt)) == ServerMessageView::Chat(chat_line_spec(login, txt)),
{
    lemma_chat_line_is_never_reload(login, txt);
}

/// Ids are never reused: of two registrations in a row, the later one gets
/// the larger id, and the session registered first keeps its id and address.
pub proof fn lemma_registrations_keep_ids_apart<A>(s0: Server<A>, s1: Server<A>, s2: Server<A>, a1: A, a2: A, id1: usize, id2: usize)
    requires
        registers(s0, s1, a1, id1),
        registers(s1, s2, a2, id2),
    ensures
        id1 < id2,
        s2.clients().contains_key(id1),
        s2.clients()[id1] == a1,
        s2.clients()[id2] == a2,
{
}

impl<A> Server<A> {
    /// The registered sessions, by id.
    pub closed spec fn clients(&self) -> Map<usize, A> {
        self.addrs@
    }

    /// The id the next session will be given.
    pub closed spec fn next_id_spec(&self) -> nat {
        self.count as nat
    }

    #[verifier::type_invariant]
    closed spec fn inv(&self) -> bool {
        self.addrs@.dom() == ids_below(self.count as nat)
    }

    /// A server without sessions.
    pub fn new() -> (s: Self)
        ensures
            s.clients() == Map::<usize, A>::empty(),
            s.next_id_spec() == 0,
            s.clients().dom() == ids_below(s.next_id_spec()),
    {
        let addrs: HashMap<usize, A> = HashMap::new();
        assert(addrs@.dom() =~= ids_below(0));
        Server { addrs, count: 0 }
    }

    /// The id the next session will be given.
    pub fn next_id(&self) -> (n: usize)
        ensures
            n == self.next_id_spec(),
            self.clients().dom() == ids_below(self.next_id_spec()),
    {
        proof { use_type_invariant(self); }
        self.count
    }

    /// Registers a new session and returns its id: the next id, which no
    /// session had before.
    pub fn connect(&mut self, addr: A) -> (id: usize)
        requires
            old(self).next_id_spec() < usize::MAX,
        ensures
            registers(*old(self), *final(self), addr, id),
            !old(self).clients().contains_key(id),
            final(self).clients().dom() == ids_below(final(self).next_id_spec()),
            id == old(self).next_id_spec(),
            final(self).next_id_spec() == id + 1,
            final(self).clients().contains_key(id),
            final(self).clients()[id] == addr,
            final(self).clients().dom() == old(self).clients().dom().insert(id),
            forall|k: usize| #[trigger] old(self).clients().contains_key(k) ==>
                final(self).clients().contains_key(k) && final(self).clients()[k] == old(self).clients()[k],
    {
        proof { use_type_invariant(&*self); }
        let mut taken = Server::new();
        std::mem::swap(self, &mut taken);
        let Server { mut addrs, count } = taken;
        let id = count;
        addrs.insert(id, addr);
        assert(addrs@.dom() =~= ids_below((id + 1) as nat));
        *self = Server { addrs, count: id + 1 };
        id
    }

    /// The ids of all registered sessions, each once, in ascending order.
    pub fn client_ids(&self) -> (ids: Vec<usize>)
        ensures
            ids@.no_duplicates(),
            ids@.to_set() == self.clients().dom(),
            ids@.len() == self.next_id_spec(),
            forall|i: int| 0 <= i < ids@.len() ==> ids@[i] == i,
    {
        proof { use_type_invariant(self); }
        let mut ids: Vec<usize> = Vec::new();
        let n = self.count;
        let mut i: usize = 0;
        while i < n
            invariant
                i <= n,
                ids@.len() == i,
                forall|j: int| 0 <= j < i ==> ids@[j] == j,
            decreases n - i,
        {
            ids.push(i);
            i = i + 1;
        }
        assert(ids@.to_set() =~= ids_below(n as nat)) by {
            assert forall|k: usize| ids_below(n as nat).contains(k) implies ids@.to_set().contains(k) by {
                assert(ids@[k as int] == k);
            }
        }
        ids
    }

    /// The address of the session registered under `id`, if any.
    pub fn address(&self, id: usize) -> (a: Option<&A>)
        ensures
            match a {
                Some(v) => self.clients().contains_key(id) && *v == self.clients()[id],
                None => !self.clients().contains_key(id),
            },
    {
        self.addrs.get(&id)
    }

    /// What the server sends when a line of text reaches the chat: the
    /// message chosen by [`chat_box_message_spec`], to every registered
    /// session exactly once.
    pub fn send_message_to_chat_box(&self, txt: String) -> (b: Broadcast)
        ensures
            b.message@ == chat_box_message_spec(txt@),
            (b.message is Reload) <==> txt@ == "reload"@,
            b.message matches FromServerMessage::Chat(t) ==> t@ == txt@,
            b.recipients@.no_duplicates(),
            b.recipients@.to_set() == self.clients().dom(),
    {
        let message = chat_box_message(txt);
        let recipients = self.client_ids();
        Broadcast { message, recipients }
    }

    /// Handles a message from the client of a session: a login records the
    /// name in the session and sends nothing; a chat message is turned into
    /// the line `name : text` (`nc` for a client without a name) and sent to
    /// every session.
    pub fn handle_entry(&self, payload: FromClientMessage, client: &mut ClientData) -> (out: Option<Broadcast>)
        ensures
            entry_effect(payload@, old(client)@, final(client)@, broadcast_message(out)),
            payload matches FromClientMessage::Login(name) ==> final(client)@ == Some(name@) && out is None,
            payload matches FromClientMessage::ChatMsg(txt) ==> {
                &&& final(client)@ == old(client)@
                &&& out matches Some(b) && b.message matches FromServerMessage::Chat(line) && line@ == (match old(client)@ {
                    Some(n) => n,
                    None => "nc"@,
                }) + " : "@ + txt@
            },
            out matches Some(b) ==> {
                &&& b.recipients@.no_duplicates()
                &&& b.recipients@.to_set() == self.clients().dom()
            },
    {
        match payload {
            FromClientMessage::Login(name) => {
                client.set_login(Some(name));
                None
            },
            FromClientMessage::ChatMsg(txt) => {
                let login = client.get_login();
                let ghost login_view = opt_view(login);
                let line = chat_line(login, txt.as_str());
                proof {
                    lemma_chat_line_is_never_reload(login_view, txt@);
                    lemma_chat_box_message_law(chat_line_spec(login_view, txt@));
                }
                Some(self.send_message_to_chat_box(line))
            },
        }
    }
}

} // verus!
