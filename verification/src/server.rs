use crate::chai::ChaiApp;
use crate::escape::{
    exit_alt_screen, show_cursor, spec_exit_alt_screen, spec_show_cursor,
};
use crate::registry::ClientRegistry;
use core::marker::PhantomData;
use vstd::prelude::*;

verus! {

/// The number of concurrent connections a server accepts unless told otherwise.
pub const DEFAULT_MAX_CONNECTIONS: usize = 100;

/// The number of frames a connection's output channel holds unless told otherwise.
pub const DEFAULT_CHANNEL_BUFFER: usize = 64;

/// The terminal width assumed until a client reports its own.
pub const DEFAULT_COLS: u32 = 80;

/// The terminal height assumed until a client reports its own.
pub const DEFAULT_ROWS: u32 = 24;

/// An SSH server for the terminal application `T`, and the per-connection
/// handler state that it hands to each client.
pub struct ChaiServer<T: ChaiApp + Send + 'static> {
    port: u16,
    id: usize,
    username: String,
    max_connections: usize,
    channel_buffer: usize,
    cols: u32,
    rows: u32,
    app: PhantomData<T>,
}

/// The abstract state of a [`ChaiServer`].
pub struct ServerView {
    pub port: u16,
    /// The identifier of the connection this handler serves; on the server
    /// itself, the identifier the next client will get.
    pub id: usize,
    /// The user name given when the client authenticated.
    pub username: Seq<char>,
    pub max_connections: usize,
    pub channel_buffer: usize,
    /// The terminal size the client asked for.
    pub cols: u32,
    pub rows: u32,
}

impl<T: ChaiApp + Send + 'static> View for ChaiServer<T> {
    type V = ServerView;

    closed spec fn view(&self) -> ServerView {
        ServerView {
            port: self.port,
            id: self.id,
            username: self.username@,
            max_connections: self.max_connections,
            channel_buffer: self.channel_buffer,
            cols: self.cols,
            rows: self.rows,
        }
    }
}

/// The handler that a server with state `s` hands to a new client: the same
/// settings, identifier and user name, with the default terminal size.
pub open spec fn handler_view(s: ServerView) -> ServerView {
    ServerView { cols: DEFAULT_COLS, rows: DEFAULT_ROWS, ..s }
}

/// The area of a remote terminal, in character cells.
#[derive(Clone, Copy, Debug, PartialEq, Eq, Structural)]
pub struct Viewport {
    pub x: u16,
    pub y: u16,
    pub width: u16,
    pub height: u16,
}

/// The viewport for a terminal of `cols` columns and `rows` rows: at the
/// origin, with each dimension cut to its low 16 bits.
pub open spec fn spec_viewport(cols: u32, rows: u32) -> Viewport {
    Viewport { x: 0, y: 0, width: (cols as int % 0x10000) as u16, height: (rows as int % 0x10000) as u16 }
}

/// The viewport for a terminal of `cols` columns and `rows` rows: see
/// [`spec_viewport`].
pub fn viewport(cols: u32, rows: u32) -> (r: Viewport)
    ensures
        r == spec_viewport(cols, rows),
        r.width as int == cols as int % 0x10000,
        r.height as int == rows as int % 0x10000,
{
    let width: u16 = cols as u16;
    let height: u16 = rows as u16;
    assert(width == cols % 0x10000) by (bit_vector)
        requires
            width == cols as u16,
    ;
    assert(height == rows % 0x10000) by (bit_vector)
        requires
            height == rows as u16,
    ;
    Viewport { x: 0, y: 0, width, height }
}

/// The answer to an authentication attempt.
#[derive(Clone, Copy, Debug, PartialEq, Eq, Structural)]
pub enum AuthDecision {
    Accept,
}

/// What to do once an application has handled a client's input.
pub enum InputOutcome {
    /// Draw the application again.
    Redraw,
    /// Send each of `messages` to the client, in order, then close the channel.
    Close { messages: Vec<Vec<u8>> },
}

/// The response to an application that has handled input and then answered
/// `quit` to whether the connection should end: when it should, the remote
/// terminal leaves the alternate screen, its cursor is shown again, and the
/// channel is closed; otherwise the application is drawn again.
pub fn input_outcome(quit: bool) -> (r: InputOutcome)
    ensures
        !quit <==> r is Redraw,
        r matches InputOutcome::Close { messages } ==> {
            &&& messages@.len() == 2
            &&& messages@[0]@ == spec_exit_alt_screen()
            &&& messages@[1]@ == spec_show_cursor()
        },
{
    if quit {
        let mut messages: Vec<Vec<u8>> = Vec::new();
        messages.push(exit_alt_screen());
        messages.push(show_cursor());
        InputOutcome::Close { messages }
    } else {
        InputOutcome::Redraw
    }
}

/// The bytes sent to a client whose channel closes: leave the alternate
/// screen, then show the cursor, in one message.
pub fn close_sequence() -> (r: Vec<u8>)
    ensures
        r@ == spec_exit_alt_screen() + spec_show_cursor(),
{
    let r: Vec<u8> = vec![
        0x1b, 0x5b, 0x3f, 0x31, 0x30, 0x34, 0x39, 0x6c,
        0x1b, 0x5b, 0x3f, 0x32, 0x35, 0x68,
    ];
    assert(r@ =~= spec_exit_alt_screen() + spec_show_cursor());
    r
}

impl<T: ChaiApp + Send + 'static> Clone for ChaiServer<T> {
    /// A copy with the same settings, identifier and user name, and the
    /// default terminal size.
    fn clone(&self) -> (r: Self)
        ensures
            r@ == handler_view(self@),
            r@.port == self@.port,
            r@.id == self@.id,
            r@.username == self@.username,
            r@.max_connections == self@.max_connections,
            r@.channel_buffer == self@.channel_buffer,
            r@.cols == DEFAULT_COLS,
            r@.rows == DEFAULT_ROWS,
    {
        ChaiServer {
            port: self.port,
            id: self.id,
            username: self.username.clone(),
            max_connections: self.max_connections,
            channel_buffer: self.channel_buffer,
            cols: DEFAULT_COLS,
            rows: DEFAULT_ROWS,
            app: PhantomData,
        }
    }
}

impl<T: ChaiApp + Send + 'static> ChaiServer<T> {
    /// A server that will listen on `port`, with the default limits, no user
    /// yet, and the default terminal size.
    pub fn new(port: u16) -> (r: Self)
        ensures
            r@ == (ServerView {
                port,
                id: 0,
                username: Seq::<char>::empty(),
                max_connections: DEFAULT_MAX_CONNECTIONS,
                channel_buffer: DEFAULT_CHANNEL_BUFFER,
                cols: DEFAULT_COLS,
                rows: DEFAULT_ROWS,
            }),
    {
        ChaiServer {
            port,
            id: 0,
            username: String::new(),
            max_connections: DEFAULT_MAX_CONNECTIONS,
            channel_buffer: DEFAULT_CHANNEL_BUFFER,
            cols: DEFAULT_COLS,
            rows: DEFAULT_ROWS,
            app: PhantomData,
        }
    }

    /// Set the maximum number of concurrent SSH connections. Default: 100.
    pub fn with_max_connections(self, max: usize) -> (r: Self)
        ensures
            r@ == (ServerView { max_connections: max, ..self@ }),
    {
        let mut s = self;
        s.max_connections = max;
        s
    }

    /// Set the per-connection terminal output channel buffer size.
    /// Frames are dropped (not buffered) when the buffer is full. Default: 64.
    pub fn with_channel_buffer(self, size: usize) -> (r: Self)
        ensures
            r@ == (ServerView { channel_buffer: size, ..self@ }),
    {
        let mut s = self;
        s.channel_buffer = size;
        s
    }

    /// Makes the handler for a newly connected client, which gets the
    /// server's current identifier; the server moves on to the next one.
    pub fn new_client(&mut self) -> (r: Self)
        requires
            old(self)@.id < usize::MAX,
        ensures
            r@ == handler_view(old(self)@),
            r@.port == old(self)@.port,
            r@.id == old(self)@.id,
            r@.username == old(self)@.username,
            r@.max_connections == old(self)@.max_connections,
            r@.channel_buffer == old(self)@.channel_buffer,
            r@.cols == DEFAULT_COLS,
            r@.rows == DEFAULT_ROWS,
            final(self)@ == (ServerView { id: (old(self)@.id + 1) as usize, ..old(self)@ }),
    {
        let s = self.clone();
        self.id = self.id + 1;
        s
    }

    /// Records the user name a client gave and accepts it. Every user is
    /// accepted, with or without a key.
    pub fn authenticate(&mut self, user: &str) -> (r: AuthDecision)
        ensures
            final(self)@ == (ServerView { username: user@, ..old(self)@ }),
            r == AuthDecision::Accept,
    {
        self.username = user.to_owned();
        AuthDecision::Accept
    }

    /// The registry of this server's clients, which holds at most the
    /// maximum number of connections at once.
    pub fn client_registry<C>(&self) -> (r: ClientRegistry<C>)
        ensures
            r@.clients == Map::<usize, C>::empty(),
            r@.limit == self@.max_connections,
    {
        ClientRegistry::new(self.max_connections)
    }

    /// Whether a new session may open while `clients` are registered: only
    /// while fewer than the maximum are.
    pub fn admits_session<C>(&self, clients: &ClientRegistry<C>) -> (r: bool)
        ensures
            r == (clients@.clients.len() < self@.max_connections),
    {
        clients.len() < self.max_connections
    }

    /// Records the terminal size a client asked for with its pseudo-terminal.
    pub fn record_pty_size(&mut self, cols: u32, rows: u32)
        ensures
            final(self)@ == (ServerView { cols, rows, ..old(self)@ }),
    {
        self.cols = cols;
        self.rows = rows;
    }

    /// The viewport of the terminal made when the client asks for a shell.
    pub fn shell_viewport(&self) -> (r: Viewport)
        ensures
            r == spec_viewport(self@.cols, self@.rows),
    {
        viewport(self.cols, self.rows)
    }

    pub fn port(&self) -> (r: u16)
        ensures
            r == self@.port,
    {
        self.port
    }

    pub fn id(&self) -> (r: usize)
        ensures
            r == self@.id,
    {
        self.id
    }

    pub fn username(&self) -> (r: &str)
        ensures
            r@ == self@.username,
    {
        self.username.as_str()
    }

    pub fn max_connections(&self) -> (r: usize)
        ensures
            r == self@.max_connections,
    {
        self.max_connections
    }

    pub fn channel_buffer(&self) -> (r: usize)
        ensures
            r == self@.channel_buffer,
    {
        self.channel_buffer
    }

    pub fn cols(&self) -> (r: u32)
        ensures
            r == self@.cols,
    {
        self.cols
    }

    pub fn rows(&self) -> (r: u32)
        ensures
            r == self@.rows,
    {
        self.rows
    }
}

/// Every client gets an identifier of its own: when a server hands out
/// handlers one after another, as `new_client` describes (`servers[i]` is the
/// server before the `i`-th call and `handlers[i]` what it returned), the
/// `i`-th handler has identifier `servers[0].id + i`, so no two share one.
pub proof fn client_ids_are_distinct(servers: Seq<ServerView>, handlers: Seq<ServerView>)
    requires
        servers.len() == handlers.len() + 1,
        forall|i: int|
            0 <= i < handlers.len() ==> #[trigger] handlers[i] == handler_view(servers[i]),
        forall|i: int|
            0 <= i < handlers.len() ==> #[trigger] servers[i + 1] == (ServerView {
                id: (servers[i].id + 1) as usize,
                ..servers[i]
            }),
        forall|i: int| 0 <= i < handlers.len() ==> #[trigger] servers[i].id < usize::MAX,
    ensures
        forall|i: int| 0 <= i < handlers.len() ==> #[trigger] handlers[i].id == servers[0].id + i,
        servers.last().id == servers[0].id + handlers.len(),
        forall|i: int, j: int|
            0 <= i < j < handlers.len() ==> #[trigger] handlers[i].id != #[trigger] handlers[j].id,
{
    assert forall|i: int| 0 <= i < handlers.len() implies #[trigger] handlers[i].id == servers[0].id
        + i by {
        server_id_after(servers, handlers, i);
    }
    assert forall|i: int, j: int|
        0 <= i < j < handlers.len() implies #[trigger] handlers[i].id != #[trigger] handlers[j].id by {
        server_id_after(servers, handlers, i);
        server_id_after(servers, handlers, j);
    }
    server_id_after(servers, handlers, handlers.len() as int);
}

/// The terminal made for a shell has the size the client asked for with its
/// pseudo-terminal request, cut to 16 bits, and 80 by 24 when it made none:
/// for a handler `h` that a server `s` handed out, before and after
/// `record_pty_size(cols, rows)`.
pub proof fn shell_size_follows_pty_request(s: ServerView, cols: u32, rows: u32)
    ensures
        spec_viewport(handler_view(s).cols, handler_view(s).rows) == (Viewport {
            x: 0,
            y: 0,
            width: 80,
            height: 24,
        }),
        ({
            let h = ServerView { cols, rows, ..handler_view(s) };
            spec_viewport(h.cols, h.rows) == (Viewport {
                x: 0,
                y: 0,
                width: (cols as int % 0x10000) as u16,
                height: (rows as int % 0x10000) as u16,
            })
        }),
{
}

proof fn server_id_after(servers: Seq<ServerView>, handlers: Seq<ServerView>, n: int)
    requires
        servers.len() == handlers.len() + 1,
        0 <= n <= handlers.len(),
        forall|i: int|
            0 <= i < handlers.len() ==> #[trigger] handlers[i] == handler_view(servers[i]),
        forall|i: int|
            0 <= i < handlers.len() ==> #[trigger] servers[i + 1] == (ServerView {
                id: (servers[i].id + 1) as usize,
                ..servers[i]
            }),
        forall|i: int| 0 <= i < handlers.len() ==> #[trigger] servers[i].id < usize::MAX,
    ensures
        servers[n].id == servers[0].id + n,
        n < handlers.len() ==> handlers[n].id == servers[0].id + n,
    decreases n,
{
    if n > 0 {
        server_id_after(servers, handlers, n - 1);
        assert(servers[(n - 1) + 1].id == servers[n - 1].id + 1);
    }
}

/// A new connection's handler keeps every setting of the server (port,
/// connection limit, output buffer, user name) and its identifier; only the
/// terminal size starts again at 80 by 24.
pub proof fn handler_keeps_settings(s: ServerView)
    ensures
        handler_view(s).port == s.port,
        handler_view(s).id == s.id,
        handler_view(s).username == s.username,
        handler_view(s).max_connections == s.max_connections,
        handler_view(s).channel_buffer == s.channel_buffer,
        handler_view(s).cols == 80,
        handler_view(s).rows == 24,
{
}

} // verus!
