//! The renderer process's side of the protocol: the single authority over the
//! shared drawing state, and the startup handshake it performs on launch.
//!
//! The serving loop reads one request envelope, applies it to the state, and
//! answers with a response envelope carrying the same session identifier —
//! that echo is the whole correlation mechanism. `handle_query` is that
//! apply-and-answer step; the loop around it, the window, and the actual
//! drawing of the stored paths each frame live outside the verified core,
//! which never reads the geometry beyond carrying it.
//!
//! On launch the process reads one line from its startup input naming the IPC
//! connection to join; `parse_oneshot_name` checks and strips that line, and
//! an empty read is a handshake failure.

use vstd::prelude::*;
use crate::ipc_protocol::{
    ConnectionError, DrawingState, RequestEnvelope, ResponseEnvelope, ServerResponse, TurtleState,
};
use crate::query::{Color, DrawingCommand, Path, PathModel, Query, Request};

verus! {

/// A shape being filled, or already filled: the fill color captured when the
/// fill began, and the paths outlining it.
pub struct FillShape {
    pub color: Color,
    pub paths: Vec<Path>,
}

/// The mathematical content of a fill shape.
#[verifier::ext_equal]
pub ghost struct FillModel {
    pub color: Color,
    pub paths: Seq<PathModel>,
}

impl View for FillShape {
    type V = FillModel;

    open spec fn view(&self) -> FillModel {
        FillModel { color: self.color, paths: self.paths@.map_values(|p: Path| p@) }
    }
}

/// The mathematical content of the renderer's drawing state.
#[verifier::ext_equal]
pub ghost struct RendererModel {
    /// The turtle snapshot answered to a `Request::TurtleState` query.
    pub turtle: TurtleState,
    /// The canvas snapshot answered to a `Request::DrawingState` query.
    pub drawing: DrawingState,
    /// Finished paths persisted so they are redrawn every frame.
    pub stored_paths: Seq<PathModel>,
    /// The path currently being animated, not yet finalized.
    pub temporary_path: Option<PathModel>,
    /// The fill color a `BeginFill` issued *now* would capture. Changing it
    /// never touches a fill already begun.
    pub current_fill_color: Color,
    /// The fill being accumulated since the last `BeginFill`, if any.
    pub active_fill: Option<FillModel>,
    /// Fills closed by `EndFill`, persisted like stored paths.
    pub finished_fills: Seq<FillModel>,
}

impl RendererModel {
    /// `Clear` is a caller contract violation while a path is still being
    /// animated; every other query is allowed in every state.
    pub open spec fn query_allowed(self, q: Query) -> bool {
        q matches Query::Drawing(DrawingCommand::Clear) ==> self.temporary_path is None
    }

    /// What one request does to the drawing state, and what it answers:
    /// queries answer the matching snapshot and change nothing; `StorePath`
    /// persists the path, into the accumulating fill shape while one is open;
    /// `BeginFill` opens a fill with the color carried in the command;
    /// `EndFill` closes it; `Clear` resets the canvas.
    pub open spec fn apply(self, q: Query) -> (RendererModel, ServerResponse) {
        match q {
            Query::Request(Request::TurtleState) => (
                self,
                ServerResponse::TurtleState(self.turtle),
            ),
            Query::Request(Request::DrawingState) => (
                self,
                ServerResponse::DrawingState(self.drawing),
            ),
            Query::Drawing(DrawingCommand::StorePath(p)) => (
                match self.active_fill {
                    Some(f) => RendererModel {
                        active_fill: Some(FillModel { color: f.color, paths: f.paths.push(p@) }),
                        ..self
                    },
                    None => RendererModel { stored_paths: self.stored_paths.push(p@), ..self },
                },
                ServerResponse::Ack,
            ),
            Query::Drawing(DrawingCommand::BeginFill(c)) => (
                RendererModel {
                    active_fill: Some(FillModel { color: c, paths: Seq::empty() }),
                    ..self
                },
                ServerResponse::Ack,
            ),
            Query::Drawing(DrawingCommand::EndFill) => (
                match self.active_fill {
                    Some(f) => RendererModel {
                        active_fill: None,
                        finished_fills: self.finished_fills.push(f),
                        ..self
                    },
                    None => self,
                },
                ServerResponse::Ack,
            ),
            Query::Drawing(DrawingCommand::Clear) => (
                RendererModel {
                    stored_paths: Seq::empty(),
                    active_fill: None,
                    finished_fills: Seq::empty(),
                    ..self
                },
                ServerResponse::Ack,
            ),
        }
    }

    /// The current fill color changed to `c`; nothing else moves.
    pub open spec fn with_fill_color(self, c: Color) -> RendererModel {
        RendererModel { current_fill_color: c, ..self }
    }
}

/// The drawing and window state the renderer process owns exclusively. No
/// other component ever sees it; sessions only learn of it through the
/// snapshots their queries answer.
pub struct RendererState {
    turtle: TurtleState,
    drawing: DrawingState,
    stored_paths: Vec<Path>,
    temporary_path: Option<Path>,
    current_fill_color: Color,
    active_fill: Option<FillShape>,
    finished_fills: Vec<FillShape>,
}

/// The model of an optional path.
pub open spec fn opt_path_view(p: Option<Path>) -> Option<PathModel> {
    match p {
        Some(path) => Some(path@),
        None => None,
    }
}

impl View for RendererState {
    type V = RendererModel;

    closed spec fn view(&self) -> RendererModel {
        RendererModel {
            turtle: self.turtle,
            drawing: self.drawing,
            stored_paths: self.stored_paths@.map_values(|p: Path| p@),
            temporary_path: opt_path_view(self.temporary_path),
            current_fill_color: self.current_fill_color,
            active_fill: match self.active_fill {
                Some(f) => Some(f@),
                None => None,
            },
            finished_fills: self.finished_fills@.map_values(|f: FillShape| f@),
        }
    }
}

impl RendererState {
    /// A fresh canvas: the turtle at the origin with the pen down, a white
    /// background, nothing stored, no fill in progress, black fill color.
    pub fn new() -> (s: RendererState)
        ensures
            s@ == (RendererModel {
                turtle: TurtleState { x: 0, y: 0, heading: 0, pen_down: true },
                drawing: DrawingState {
                    background: Color { red: 255, green: 255, blue: 255, alpha: 255 },
                    width: 800,
                    height: 600,
                },
                stored_paths: Seq::<PathModel>::empty(),
                temporary_path: None,
                current_fill_color: Color { red: 0, green: 0, blue: 0, alpha: 255 },
                active_fill: None,
                finished_fills: Seq::<FillModel>::empty(),
            }),
    {
        let s = RendererState {
            turtle: TurtleState { x: 0, y: 0, heading: 0, pen_down: true },
            drawing: DrawingState {
                background: Color { red: 255, green: 255, blue: 255, alpha: 255 },
                width: 800,
                height: 600,
            },
            stored_paths: Vec::new(),
            temporary_path: None,
            current_fill_color: Color { red: 0, green: 0, blue: 0, alpha: 255 },
            active_fill: None,
            finished_fills: Vec::new(),
        };
        proof {
            assert(s@.stored_paths =~= Seq::<PathModel>::empty());
            assert(s@.finished_fills =~= Seq::<FillModel>::empty());
            assert(s@ =~= RendererModel {
                turtle: TurtleState { x: 0, y: 0, heading: 0, pen_down: true },
                drawing: DrawingState {
                    background: Color { red: 255, green: 255, blue: 255, alpha: 255 },
                    width: 800,
                    height: 600,
                },
                stored_paths: Seq::<PathModel>::empty(),
                temporary_path: None,
                current_fill_color: Color { red: 0, green: 0, blue: 0, alpha: 255 },
                active_fill: None,
                finished_fills: Seq::<FillModel>::empty(),
            });
        }
        s
    }

    /// One turn of the serving loop: apply one request envelope to the state
    /// and answer a response envelope carrying the same session identifier —
    /// the echo that lets the dispatcher route the response home.
    pub fn handle_query(&mut self, env: RequestEnvelope) -> (resp: ResponseEnvelope)
        requires
            old(self)@.query_allowed(env.query),
        ensures
            resp.id == env.id,
            final(self)@ == old(self)@.apply(env.query).0,
            resp.response == old(self)@.apply(env.query).1,
            final(self)@.temporary_path == old(self)@.temporary_path,
    {
        let id = env.id;
        match env.query {
            Query::Request(Request::TurtleState) => {
                ResponseEnvelope { id, response: ServerResponse::TurtleState(self.turtle) }
            }
            Query::Request(Request::DrawingState) => {
                ResponseEnvelope { id, response: ServerResponse::DrawingState(self.drawing) }
            }
            Query::Drawing(DrawingCommand::StorePath(p)) => {
                match &mut self.active_fill {
                    Some(f) => {
                        f.paths.push(p);
                    }
                    None => {
                        self.stored_paths.push(p);
                    }
                }
                proof {
                    assert(self@ =~= old(self)@.apply(env.query).0);
                }
                ResponseEnvelope { id, response: ServerResponse::Ack }
            }
            Query::Drawing(DrawingCommand::BeginFill(c)) => {
                self.active_fill = Some(FillShape { color: c, paths: Vec::new() });
                proof {
                    assert(self@.active_fill->Some_0.paths =~= Seq::<PathModel>::empty());
                    assert(self@ =~= old(self)@.apply(env.query).0);
                }
                ResponseEnvelope { id, response: ServerResponse::Ack }
            }
            Query::Drawing(DrawingCommand::EndFill) => {
                let taken = self.active_fill.take();
                match taken {
                    Some(f) => {
                        self.finished_fills.push(f);
                        proof {
                            assert(self@ =~= old(self)@.apply(env.query).0);
                        }
                    }
                    None => {
                        proof {
                            assert(self@ =~= old(self)@.apply(env.query).0);
                        }
                    }
                }
                ResponseEnvelope { id, response: ServerResponse::Ack }
            }
            Query::Drawing(DrawingCommand::Clear) => {
                self.stored_paths.clear();
                self.active_fill = None;
                self.finished_fills.clear();
                proof {
                    assert(self@.stored_paths =~= Seq::<PathModel>::empty());
                    assert(self@.finished_fills =~= Seq::<FillModel>::empty());
                    assert(self@ =~= old(self)@.apply(env.query).0);
                }
                ResponseEnvelope { id, response: ServerResponse::Ack }
            }
        }
    }

    /// Changes the current fill color — the color a `BeginFill` issued from
    /// now on would capture. A fill already begun keeps the color it captured.
    pub fn set_fill_color(&mut self, c: Color)
        ensures
            final(self)@ == old(self)@.with_fill_color(c),
    {
        self.current_fill_color = c;
        proof {
            assert(self@ =~= old(self)@.with_fill_color(c));
        }
    }

    /// Whether a path is currently mid-animation. While one is, `Clear` is a
    /// caller contract violation.
    pub fn has_temporary_path(&self) -> (b: bool)
        ensures
            b == (self@.temporary_path is Some),
    {
        match &self.temporary_path {
            Some(_) => true,
            None => false,
        }
    }

    /// The color the fill being accumulated captured at its `BeginFill`, if
    /// one is open.
    pub fn active_fill_color(&self) -> (c: Option<Color>)
        ensures
            c == (match self@.active_fill {
                Some(f) => Some(f.color),
                None => None,
            }),
    {
        match &self.active_fill {
            Some(f) => Some(f.color),
            None => None,
        }
    }

    /// The fill color a `BeginFill` issued now would capture.
    pub fn current_fill_color(&self) -> (c: Color)
        ensures
            c == self@.current_fill_color,
    {
        self.current_fill_color
    }

    /// How many finished paths are persisted for redrawing.
    pub fn stored_path_count(&self) -> (n: usize)
        ensures
            n as int == self@.stored_paths.len(),
    {
        self.stored_paths.len()
    }

    /// How many closed fill shapes are persisted.
    pub fn finished_fill_count(&self) -> (n: usize)
        ensures
            n as int == self@.finished_fills.len(),
    {
        self.finished_fills.len()
    }

    /// The captured color of one persisted fill shape.
    pub fn finished_fill_color(&self, i: usize) -> (c: Color)
        requires
            (i as int) < self@.finished_fills.len(),
        ensures
            c == self@.finished_fills[i as int].color,
    {
        self.finished_fills[i].color
    }

    /// The animation boundary: the renderer starts or drops the path being
    /// animated. A stored temporary path must be finalized (dropped here and
    /// persisted through `StorePath`) before `Clear` is allowed again.
    pub fn set_temporary_path(&mut self, p: Option<Path>)
        ensures
            final(self)@ == (RendererModel { temporary_path: opt_path_view(p), ..old(self)@ }),
    {
        self.temporary_path = p;
        proof {
            assert(self@ =~= RendererModel { temporary_path: opt_path_view(p), ..old(self)@ });
        }
    }
}

/// The fill color is captured at `BeginFill` time: beginning a fill with
/// color `c` and then changing the current fill color to anything else leaves
/// the accumulating fill — and everything later stored into it — at `c`.
pub proof fn lemma_begin_fill_captures_color(m: RendererModel, c: Color, c2: Color, p: Path)
    ensures
        ({
            let begun = m.apply(Query::Drawing(DrawingCommand::BeginFill(c))).0;
            let recolored = begun.with_fill_color(c2);
            let stored = recolored.apply(Query::Drawing(DrawingCommand::StorePath(p))).0;
            &&& recolored.active_fill is Some
            &&& recolored.active_fill->Some_0.color == c
            &&& stored.active_fill is Some
            &&& stored.active_fill->Some_0.color == c
            &&& stored.current_fill_color == c2
        }),
{
}

/// The renderer applied to each request envelope of `envs` in order: the
/// final drawing state and the response envelopes it answered, in production
/// order.
pub open spec fn apply_all(m: RendererModel, envs: Seq<RequestEnvelope>) -> (
    RendererModel,
    Seq<ResponseEnvelope>,
)
    decreases envs.len(),
{
    if envs.len() == 0 {
        (m, Seq::empty())
    } else {
        let prefix = apply_all(m, envs.drop_last());
        let step = prefix.0.apply(envs.last().query);
        (
            step.0,
            prefix.1.push(ResponseEnvelope { id: envs.last().id, response: step.1 }),
        )
    }
}

/// The renderer is a single sequential consumer: it answers exactly one
/// response per request, in the order the requests arrived, each echoing the
/// identifier of the request that produced it. Together with per-session FIFO
/// routing this is the protocol's whole correlation story: a session that
/// never pipelines receives the response to each of its requests before it
/// sends the next.
pub proof fn lemma_responses_in_request_order(m: RendererModel, envs: Seq<RequestEnvelope>)
    ensures
        apply_all(m, envs).1.len() == envs.len(),
        forall|i: int| 0 <= i < envs.len()
            ==> #[trigger] apply_all(m, envs).1[i].id == envs[i].id,
    decreases envs.len(),
{
    if envs.len() > 0 {
        lemma_responses_in_request_order(m, envs.drop_last());
        assert forall|i: int| 0 <= i < envs.len() implies #[trigger] apply_all(m, envs).1[i].id
            == envs[i].id by {
            if i < envs.len() - 1 {
                assert(apply_all(m, envs).1[i] == apply_all(m, envs.drop_last()).1[i]);
            }
        }
    }
}

/// Checks and strips the startup handshake line: the renderer process reads
/// one line from its startup input naming the IPC connection to join. The
/// name is the line without its trailing newline; an empty read (immediate
/// end of input) or a line that lost its newline is a handshake failure.
pub fn parse_oneshot_name(line: Vec<u8>) -> (r: Result<Vec<u8>, ConnectionError>)
    ensures
        match r {
            Ok(name) => line@.len() > 0 && line@.last() == 10u8 && name@ == line@.drop_last(),
            Err(e) => {
                &&& e == ConnectionError::HandshakeFailed
                &&& (line@.len() == 0 || line@.last() != 10u8)
            },
        },
{
    if line.len() == 0 {
        return Err(ConnectionError::HandshakeFailed);
    }
    let last = line[line.len() - 1];
    if last != 10u8 {
        return Err(ConnectionError::HandshakeFailed);
    }
    let mut name = line;
    name.pop();
    Ok(name)
}

} // verus!
