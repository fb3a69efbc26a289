//! The animated face on the intro CRT.
//!
//! Dialogue asks for a change of face by name, optionally only once the
//! typewriter has printed a number of graphemes. The requests wait in a
//! queue and fall due in the order they were made. A name that the screen
//! has no picture for blanks the screen.

use std::collections::VecDeque;
use vstd::prelude::*;
use vstd::string::StringExecFns;

verus! {

/// The faces the screen can show, in the order of their texture slots.
pub open spec fn emote_table() -> Seq<Seq<char>> {
    seq![
        "boot"@,
        "smile"@,
        "smile2"@,
        "stonks"@,
        "sideways"@,
        "point"@,
        "glitch"@,
        "shocked"@,
        "nod"@,
        "shake"@,
        "blank"@,
        "x"@,
        "annoyed"@,
        "away"@,
        "upside"@,
        "leftside"@,
        "rightside"@,
    ]
}

/// The names of `emote_table`, slot by slot.
pub fn emote_names() -> (r: Vec<&'static str>)
    ensures
        r@.len() == emote_table().len(),
        forall|i: int| 0 <= i < r@.len() ==> (#[trigger] r@[i])@ == emote_table()[i],
{
    vec![
        "boot",
        "smile",
        "smile2",
        "stonks",
        "sideways",
        "point",
        "glitch",
        "shocked",
        "nod",
        "shake",
        "blank",
        "x",
        "annoyed",
        "away",
        "upside",
        "leftside",
        "rightside",
    ]
}

/// The texture slot of a face: the first slot of `emote_table` that bears
/// the name, if there is one.
pub fn emote_slot(name: &str) -> (r: Option<usize>)
    ensures
        match r {
            Some(slot) => {
                &&& slot < emote_table().len()
                &&& emote_table()[slot as int] == name@
                &&& forall|j: int| 0 <= j < slot ==> emote_table()[j] != name@
            },
            None => !emote_table().contains(name@),
        },
{
    let names = emote_names();
    let wanted = name.to_owned();
    let mut i: usize = 0;
    while i < names.len()
        invariant
            i <= names@.len(),
            names@.len() == emote_table().len(),
            forall|k: int| 0 <= k < names@.len() ==> (#[trigger] names@[k])@ == emote_table()[k],
            wanted@ == name@,
            forall|j: int| 0 <= j < i ==> emote_table()[j] != name@,
        decreases names@.len() - i,
    {
        let candidate = names[i].to_owned();
        if candidate == wanted {
            return Some(i);
        }
        i += 1;
    }
    None
}

/// The image file format of the face textures.
#[derive(Debug, PartialEq, Eq, Structural, Clone, Copy)]
pub enum TextureFormat {
    /// Plain images, as edited.
    Png,
    /// GPU-compressed images, as shipped.
    Ktx2,
}

impl TextureFormat {
    /// The file name ending of the format, with its dot.
    pub open spec fn ending(self) -> Seq<char> {
        match self {
            TextureFormat::Png => ".png"@,
            TextureFormat::Ktx2 => ".ktx2"@,
        }
    }
}

/// Where the texture of a face lies among the assets.
pub open spec fn texture_path_of(name: Seq<char>, format: TextureFormat) -> Seq<char> {
    "models/office/crt/"@ + name + format.ending()
}

/// The asset path of a face's texture in the given format.
pub fn texture_path(name: &str, format: TextureFormat) -> (r: String)
    ensures
        r@ == texture_path_of(name@, format),
{
    let mut path = String::from_str("models/office/crt/");
    path.append(name);
    match format {
        TextureFormat::Png => path.append(".png"),
        TextureFormat::Ktx2 => path.append(".ktx2"),
    }
    path
}

/// Every face with the asset path of its texture, slot by slot: what the
/// screen has to load before it can show any face.
pub fn screen_textures(format: TextureFormat) -> (r: Vec<(String, String)>)
    ensures
        r@.len() == emote_table().len(),
        forall|i: int|
            0 <= i < r@.len() ==> (#[trigger] r@[i]).0@ == emote_table()[i] && r@[i].1@
                == texture_path_of(emote_table()[i], format),
{
    let names = emote_names();
    let mut textures: Vec<(String, String)> = Vec::new();
    let mut i: usize = 0;
    while i < names.len()
        invariant
            i <= names@.len(),
            names@.len() == emote_table().len(),
            forall|k: int| 0 <= k < names@.len() ==> (#[trigger] names@[k])@ == emote_table()[k],
            textures@.len() == i,
            forall|k: int|
                0 <= k < i ==> (#[trigger] textures@[k]).0@ == emote_table()[k] && textures@[k].1@
                    == texture_path_of(emote_table()[k], format),
        decreases names@.len() - i,
    {
        let name = names[i];
        textures.push((name.to_owned(), texture_path(name, format)));
        i += 1;
    }
    textures
}

/// One request for a change of face.
pub struct EmoteCommand {
    /// The face asked for.
    pub emote_name: String,
    /// How many graphemes the typewriter must have printed before the face
    /// changes.
    pub delay_graphemes: usize,
}

/// How many requests at the front of `queue` have fallen due once the
/// typewriter has printed `elapsed` graphemes. Counting stops at the first
/// request whose delay has not been reached, whatever waits behind it.
pub open spec fn due_count(queue: Seq<EmoteCommand>, elapsed: usize) -> nat
    decreases queue.len(),
{
    if queue.len() == 0 || queue[0].delay_graphemes > elapsed {
        0
    } else {
        1 + due_count(queue.drop_first(), elapsed)
    }
}

/// `due_count` is the length of the longest run from the front of the queue
/// in which every delay has been reached.
pub proof fn lemma_due_count(queue: Seq<EmoteCommand>, elapsed: usize)
    ensures
        due_count(queue, elapsed) <= queue.len(),
        forall|i: int|
            0 <= i < due_count(queue, elapsed) ==> (#[trigger] queue[i]).delay_graphemes <= elapsed,
        due_count(queue, elapsed) < queue.len() ==> queue[due_count(
            queue,
            elapsed,
        ) as int].delay_graphemes > elapsed,
    decreases queue.len(),
{
    if queue.len() == 0 || queue[0].delay_graphemes > elapsed {
    } else {
        let rest = queue.drop_first();
        lemma_due_count(rest, elapsed);
        assert forall|i: int| 0 <= i < due_count(queue, elapsed) implies (#[trigger] queue[i]).delay_graphemes
            <= elapsed by {
            if i > 0 {
                assert(queue[i] == rest[i - 1]);
            }
        }
        if due_count(queue, elapsed) < queue.len() {
            assert(queue[due_count(queue, elapsed) as int] == rest[due_count(rest, elapsed) as int]);
        }
    }
}

/// The requests that have not fallen due yet, oldest first.
pub struct CrtEmoteCommandBuffer {
    queue: VecDeque<EmoteCommand>,
}

impl View for CrtEmoteCommandBuffer {
    type V = Seq<EmoteCommand>;

    closed spec fn view(&self) -> Seq<EmoteCommand> {
        self.queue@
    }
}

impl CrtEmoteCommandBuffer {
    /// A buffer with nothing waiting.
    pub fn new() -> (r: Self)
        ensures
            r@ == Seq::<EmoteCommand>::empty(),
    {
        CrtEmoteCommandBuffer { queue: VecDeque::new() }
    }

    /// How many requests wait.
    pub fn len(&self) -> (r: usize)
        ensures
            r == self@.len(),
    {
        self.queue.len()
    }

    /// Whether nothing waits.
    pub fn is_empty(&self) -> (r: bool)
        ensures
            r == (self@.len() == 0),
    {
        self.queue.len() == 0
    }

    /// Forgets every waiting request.
    pub fn clear(&mut self)
        ensures
            final(self)@ == Seq::<EmoteCommand>::empty(),
    {
        self.queue.clear();
    }

    /// Takes out the requests that have fallen due once the typewriter has
    /// printed `elapsed_graphemes`. They come back oldest first; a request
    /// behind one that is not yet due waits with it.
    pub fn take_due(&mut self, elapsed_graphemes: usize) -> (due: Vec<EmoteCommand>)
        ensures
            due@ == old(self)@.take(due_count(old(self)@, elapsed_graphemes) as int),
            final(self)@ == old(self)@.skip(due_count(old(self)@, elapsed_graphemes) as int),
    {
        let mut due: Vec<EmoteCommand> = Vec::new();
        proof {
            lemma_due_count(self@, elapsed_graphemes);
        }
        loop
            invariant
                due@.len() + self@.len() == old(self)@.len(),
                due@ == old(self)@.take(due@.len() as int),
                self@ == old(self)@.skip(due@.len() as int),
                due_count(old(self)@, elapsed_graphemes) == due@.len() + due_count(
                    self@,
                    elapsed_graphemes,
                ),
            ensures
                due@.len() + self@.len() == old(self)@.len(),
                due@ == old(self)@.take(due@.len() as int),
                self@ == old(self)@.skip(due@.len() as int),
                due_count(old(self)@, elapsed_graphemes) == due@.len(),
            decreases self@.len(),
        {
            if self.queue.len() == 0 {
                break ;
            }
            if self.queue[0].delay_graphemes > elapsed_graphemes {
                break ;
            }
            let ghost before = self@;
            match self.queue.pop_front() {
                Some(command) => {
                    due.push(command);
                    proof {
                        assert(self@ == before.drop_first());
                    }
                },
                None => {
                    break ;
                },
            }
        }
        due
    }
}

/// Queues a request for the face `emote_name`, due once `delay_graphemes`
/// have been printed, or at once where no delay is given.
pub fn set_intro_crt_emote(
    commands: &mut CrtEmoteCommandBuffer,
    emote_name: String,
    delay_graphemes: Option<usize>,
)
    ensures
        final(commands)@ == old(commands)@.push(
            (EmoteCommand {
                emote_name,
                delay_graphemes: match delay_graphemes {
                    Some(d) => d,
                    None => 0,
                },
            }),
        ),
{
    let delay_graphemes = match delay_graphemes {
        Some(d) => d,
        None => 0,
    };
    commands.queue.push_back(EmoteCommand { emote_name, delay_graphemes });
}

/// What the screen shows after a request has been carried out.
#[derive(Debug, PartialEq, Eq, Structural, Clone, Copy)]
pub enum ScreenFace {
    /// The texture in this slot, lit.
    Lit(usize),
    /// Nothing: the screen is dark.
    Dark,
}

/// `face` is what the screen shows for a name: the first slot that bears it,
/// or darkness where no slot does.
pub open spec fn face_shows(face: ScreenFace, name: Seq<char>) -> bool {
    match face {
        ScreenFace::Lit(slot) => {
            &&& slot < emote_table().len()
            &&& emote_table()[slot as int] == name
            &&& forall|j: int| 0 <= j < slot ==> emote_table()[j] != name
        },
        ScreenFace::Dark => !emote_table().contains(name),
    }
}

/// What the screen shows once the request for `emote_name` is carried out.
pub fn face_for(emote_name: &str) -> (r: ScreenFace)
    ensures
        face_shows(r, emote_name@),
{
    match emote_slot(emote_name) {
        Some(slot) => ScreenFace::Lit(slot),
        None => ScreenFace::Dark,
    }
}

/// Carries out every request that has fallen due and says what the screen
/// shows afterwards: the face of the last request carried out, or `None`
/// where none was due and the screen stays as it is.
pub fn update_intro_crt_emotes(commands: &mut CrtEmoteCommandBuffer, elapsed_graphemes: usize) -> (r:
    Option<ScreenFace>)
    ensures
        final(commands)@ == old(commands)@.skip(
            due_count(old(commands)@, elapsed_graphemes) as int,
        ),
        r is None <==> due_count(old(commands)@, elapsed_graphemes) == 0,
        r matches Some(face) ==> face_shows(
            face,
            old(commands)@[due_count(old(commands)@, elapsed_graphemes) - 1].emote_name@,
        ),
{
    proof {
        lemma_due_count(commands@, elapsed_graphemes);
    }
    let due = commands.take_due(elapsed_graphemes);
    if due.len() == 0 {
        None
    } else {
        let last = &due[due.len() - 1];
        Some(face_for(last.emote_name.as_str()))
    }
}

/// Dialogue has stopped: whether the screen goes dark and the queue is
/// dropped. Both happen exactly when no dialogue is running.
pub fn clear_intro_crt_emote(commands: &mut CrtEmoteCommandBuffer, dialogue_running: bool) -> (cleared:
    bool)
    ensures
        cleared == !dialogue_running,
        cleared ==> final(commands)@ == Seq::<EmoteCommand>::empty(),
        !cleared ==> final(commands)@ == old(commands)@,
{
    if !dialogue_running {
        commands.clear();
        true
    } else {
        false
    }
}

} // verus!
