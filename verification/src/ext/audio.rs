use vstd::prelude::*;
use std::collections::HashMap;
use crate::base::{DeftError, EventRegistration, listeners_for};

verus! {

/// The audio has loaded; holds what is known of it.
pub struct LoadEvent<M>(pub M);

/// The playing position moved; holds the new position.
pub struct TimeUpdateEvent<T>(pub T);

/// A source has played to its end.
pub struct EndEvent;

/// All sources have been played.
pub struct FinishEvent;

pub struct PauseEvent;

pub struct StopEvent;

/// Playing moved to another source; holds what changed.
pub struct CurrentChangeEvent<C>(pub C);

/// A notification from the audio player about one audio.
pub enum AudioNotify<M, T, C> {
    Load(M),
    TimeUpdate(T),
    End,
    Finish,
    Pause,
    Stop,
    CurrentChange(C),
}

/// An event that an audio dispatches to its listeners.
pub enum AudioEvent<M, T, C> {
    Load(LoadEvent<M>),
    TimeUpdate(TimeUpdateEvent<T>),
    End(EndEvent),
    Finish(FinishEvent),
    Pause(PauseEvent),
    Stop(StopEvent),
    CurrentChange(CurrentChangeEvent<C>),
}

/// The event type that scripts listen to for a notification.
pub open spec fn notify_type<M, T, C>(msg: AudioNotify<M, T, C>) -> Seq<char> {
    match msg {
        AudioNotify::Load(_) => "load"@,
        AudioNotify::TimeUpdate(_) => "timeupdate"@,
        AudioNotify::End => "end"@,
        AudioNotify::Finish => "finish"@,
        AudioNotify::Pause => "pause"@,
        AudioNotify::Stop => "stop"@,
        AudioNotify::CurrentChange(_) => "currentchange"@,
    }
}

/// The event that a notification is dispatched as.
pub open spec fn notify_event<M, T, C>(msg: AudioNotify<M, T, C>) -> AudioEvent<M, T, C> {
    match msg {
        AudioNotify::Load(m) => AudioEvent::Load(LoadEvent(m)),
        AudioNotify::TimeUpdate(t) => AudioEvent::TimeUpdate(TimeUpdateEvent(t)),
        AudioNotify::End => AudioEvent::End(EndEvent),
        AudioNotify::Finish => AudioEvent::Finish(FinishEvent),
        AudioNotify::Pause => AudioEvent::Pause(PauseEvent),
        AudioNotify::Stop => AudioEvent::Stop(StopEvent),
        AudioNotify::CurrentChange(c) => AudioEvent::CurrentChange(CurrentChangeEvent(c)),
    }
}

/// A notification goes to the listeners of its own event, named as scripts
/// name it (`Stop` to the `stop` listeners, `TimeUpdate` to the
/// `timeupdate` ones, and so on), which is an event type audios accept;
/// notifications of two different kinds never go to the same listeners.
pub proof fn law_notification_types<M, T, C>(a: AudioNotify<M, T, C>, b: AudioNotify<M, T, C>)
    ensures
        a is Load ==> notify_type(a) == "load"@ && notify_event(a) is Load,
        a is TimeUpdate ==> notify_type(a) == "timeupdate"@ && notify_event(a) is TimeUpdate,
        a is End ==> notify_type(a) == "end"@ && notify_event(a) is End,
        a is Finish ==> notify_type(a) == "finish"@ && notify_event(a) is Finish,
        a is Pause ==> notify_type(a) == "pause"@ && notify_event(a) is Pause,
        a is Stop ==> notify_type(a) == "stop"@ && notify_event(a) is Stop,
        a is CurrentChange ==> notify_type(a) == "currentchange"@ && notify_event(a) is CurrentChange,
        is_audio_event_type(notify_type(a)),
        notify_type(a) == notify_type(b) <==> ((a is Load && b is Load) || (a is TimeUpdate && b is TimeUpdate) || (a is End && b is End) || (a is Finish && b is Finish) || (a is Pause && b is Pause) || (a is Stop && b is Stop) || (a is CurrentChange && b is CurrentChange)),
{
    reveal_strlit("load");
    assert("load"@.len() == 4);
    assert("load"@[0] == 'l');
    assert("load"@[1] == 'o');
    assert("load"@[2] == 'a');
    assert("load"@[3] == 'd');
    reveal_strlit("timeupdate");
    assert("timeupdate"@.len() == 10);
    assert("timeupdate"@[0] == 't');
    assert("timeupdate"@[1] == 'i');
    assert("timeupdate"@[2] == 'm');
    assert("timeupdate"@[3] == 'e');
    assert("timeupdate"@[4] == 'u');
    assert("timeupdate"@[5] == 'p');
    assert("timeupdate"@[6] == 'd');
    assert("timeupdate"@[7] == 'a');
    assert("timeupdate"@[8] == 't');
    assert("timeupdate"@[9] == 'e');
    reveal_strlit("end");
    assert("end"@.len() == 3);
    assert("end"@[0] == 'e');
    assert("end"@[1] == 'n');
    assert("end"@[2] == 'd');
    reveal_strlit("finish");
    assert("finish"@.len() == 6);
    assert("finish"@[0] == 'f');
    assert("finish"@[1] == 'i');
    assert("finish"@[2] == 'n');
    assert("finish"@[3] == 'i');
    assert("finish"@[4] == 's');
    assert("finish"@[5] == 'h');
    reveal_strlit("pause");
    assert("pause"@.len() == 5);
    assert("pause"@[0] == 'p');
    assert("pause"@[1] == 'a');
    assert("pause"@[2] == 'u');
    assert("pause"@[3] == 's');
    assert("pause"@[4] == 'e');
    reveal_strlit("stop");
    assert("stop"@.len() == 4);
    assert("stop"@[0] == 's');
    assert("stop"@[1] == 't');
    assert("stop"@[2] == 'o');
    assert("stop"@[3] == 'p');
    reveal_strlit("currentchange");
    assert("currentchange"@.len() == 13);
    assert("currentchange"@[0] == 'c');
    assert("currentchange"@[1] == 'u');
    assert("currentchange"@[2] == 'r');
    assert("currentchange"@[3] == 'r');
    assert("currentchange"@[4] == 'e');
    assert("currentchange"@[5] == 'n');
    assert("currentchange"@[6] == 't');
    assert("currentchange"@[7] == 'c');
    assert("currentchange"@[8] == 'h');
    assert("currentchange"@[9] == 'a');
    assert("currentchange"@[10] == 'n');
    assert("currentchange"@[11] == 'g');
    assert("currentchange"@[12] == 'e');
}

/// What an audio plays.
pub struct AudioSources {
    pub urls: Vec<String>,
    pub next_index: usize,
    pub cache_dir: Option<String>,
    pub auto_loop: bool,
    /// Whether a download of a source is under way.
    pub downloading: bool,
}

/// How scripts create an audio.
pub struct AudioOptions {
    pub sources: Vec<String>,
    pub index: Option<usize>,
    pub cache_dir: Option<String>,
    pub auto_loop: Option<bool>,
}

/// The state of one audio.
pub struct AudioData {
    pub id: u32,
    pub event_registration: EventRegistration,
    pub sources: AudioSources,
}

impl AudioData {
    pub fn new(id: u32, sources: AudioSources) -> (r: Self)
        ensures
            r.id == id,
            r.sources == sources,
            r.event_registration.wf(),
            r.event_registration@.len() == 0,
    {
        AudioData { id, event_registration: EventRegistration::new(), sources }
    }
}

/// A handle to an audio.
#[derive(Clone, Copy, Debug, PartialEq, Eq, Structural)]
pub struct Audio {
    pub id: u32,
}

/// What the audio player is asked to do.
#[derive(Clone, Copy, Debug, PartialEq, Eq, Structural)]
pub enum PlayerCommand {
    Play(u32),
    Pause(u32),
    Stop(u32),
}

/// All audios: their states, which of them are playing, and what the
/// player has been asked to do, oldest first.
pub struct AudioSystem {
    pub next_id: u32,
    pub audios: Vec<AudioData>,
    pub playing: HashMap<u32, Audio>,
    pub commands: Vec<PlayerCommand>,
}

impl AudioSystem {
    /// Audio `i` has id `i + 1`, ids are handed out in order, and the
    /// playing audios are known ones, each under its own id.
    pub open spec fn wf(&self) -> bool {
        &&& self.next_id as int == self.audios@.len() + 1
        &&& forall|i: int| 0 <= i < self.audios@.len() ==> (#[trigger] self.audios@[i]).id == i + 1
        &&& forall|i: int| 0 <= i < self.audios@.len() ==> (#[trigger] self.audios@[i]).event_registration.wf()
        &&& forall|k: u32| #[trigger] self.playing@.contains_key(k) ==> self.playing@[k].id == k && 1 <= k < self.next_id
    }

    pub open spec fn valid(&self, a: Audio) -> bool {
        1 <= a.id < self.next_id
    }

    pub open spec fn data(&self, a: Audio) -> AudioData {
        self.audios@[a.id - 1]
    }

    pub fn new() -> (r: Self)
        ensures
            r.wf(),
            r.audios@.len() == 0,
            r.playing@.len() == 0,
            r.commands@.len() == 0,
    {
        let r = AudioSystem { next_id: 1, audios: Vec::new(), playing: HashMap::new(), commands: Vec::new() };
        proof {
            assert(r.playing@ =~= Map::<u32, Audio>::empty());
        }
        r
    }
}

/// Every audio known to a well-formed system has an id below the next one,
/// so the id that `Audio::create` hands out belongs to no audio yet.
pub proof fn law_created_id_is_fresh(sys: AudioSystem, i: int)
    requires
        sys.wf(),
        0 <= i < sys.audios@.len(),
    ensures
        sys.audios@[i].id < sys.next_id,
        sys.audios@[i].id != sys.next_id,
{
}

pub open spec fn options_sources(options: AudioOptions, s: AudioSources) -> bool {
    &&& s.urls == options.sources
    &&& s.next_index == match options.index {
        Some(i) => i,
        None => 0,
    }
    &&& s.cache_dir == options.cache_dir
    &&& s.auto_loop == match options.auto_loop {
        Some(b) => b,
        None => false,
    }
    &&& !s.downloading
}

/// The event types that scripts can listen to on an audio.
pub open spec fn is_audio_event_type(t: Seq<char>) -> bool {
    ||| t == "load"@
    ||| t == "timeupdate"@
    ||| t == "end"@
    ||| t == "finish"@
    ||| t == "pause"@
    ||| t == "stop"@
    ||| t == "currentchange"@
}

/// Only the listeners of audio `id` change, as `f` says; the rest stays.
pub open spec fn listeners_changed(
    old_sys: AudioSystem,
    new_sys: AudioSystem,
    id: u32,
    f: spec_fn(EventRegistration) -> bool,
) -> bool {
    &&& new_sys.next_id == old_sys.next_id
    &&& new_sys.playing@ == old_sys.playing@
    &&& new_sys.commands@ == old_sys.commands@
    &&& new_sys.audios@.len() == old_sys.audios@.len()
    &&& forall|i: int|
        0 <= i < old_sys.audios@.len() && i != id - 1 ==> #[trigger] new_sys.audios@[i]
            == old_sys.audios@[i]
    &&& new_sys.audios@[id - 1].id == old_sys.audios@[id - 1].id
    &&& new_sys.audios@[id - 1].sources == old_sys.audios@[id - 1].sources
    &&& f(new_sys.audios@[id - 1].event_registration)
}

fn registry_playing(sys: &mut AudioSystem, audio: &Audio)
    requires
        old(sys).wf(),
        old(sys).valid(*audio),
    ensures
        final(sys).wf(),
        final(sys).playing@ == old(sys).playing@.insert(audio.id, *audio),
        final(sys).next_id == old(sys).next_id,
        final(sys).audios@ == old(sys).audios@,
        final(sys).commands@ == old(sys).commands@,
{
    broadcast use vstd::std_specs::hash::group_hash_axioms;

    let audio = *audio;
    sys.playing.insert(audio.id, audio);
}

fn unregistry_playing(sys: &mut AudioSystem, audio: &Audio)
    requires
        old(sys).wf(),
    ensures
        final(sys).wf(),
        final(sys).playing@ == old(sys).playing@.remove(audio.id),
        final(sys).next_id == old(sys).next_id,
        final(sys).audios@ == old(sys).audios@,
        final(sys).commands@ == old(sys).commands@,
{
    broadcast use vstd::std_specs::hash::group_hash_axioms;

    let id = audio.id;
    sys.playing.remove(&id);
}

/// Handles a notification of the player about audio `id`: when that audio
/// is playing, the notification goes, as its event, to the audio's
/// listeners of that event type, which are returned with the event; a
/// `Finish` also takes the audio off the playing ones. A notification about
/// an audio that is not playing is dropped.
pub fn handle_play_notify<M, T, C>(sys: &mut AudioSystem, id: u32, msg: AudioNotify<M, T, C>) -> (r: Option<(AudioEvent<M, T, C>, Vec<u32>)>)
    requires
        old(sys).wf(),
    ensures
        final(sys).wf(),
        final(sys).next_id == old(sys).next_id,
        final(sys).audios@ == old(sys).audios@,
        final(sys).commands@ == old(sys).commands@,
        match r {
            None => !old(sys).playing@.contains_key(id) && final(sys).playing@ == old(sys).playing@,
            Some((event, listeners)) => {
                &&& old(sys).playing@.contains_key(id)
                &&& event == notify_event(msg)
                &&& listeners@ == listeners_for(
                    old(sys).audios@[id - 1].event_registration@,
                    notify_type(msg),
                )
                &&& final(sys).playing@ == if msg is Finish {
                    old(sys).playing@.remove(id)
                } else {
                    old(sys).playing@
                }
            },
        },
{
    broadcast use vstd::std_specs::hash::group_hash_axioms;

    let audio = match sys.playing.get(&id) {
        Some(a) => *a,
        None => return None,
    };
    let reg = &sys.audios[(audio.id - 1) as usize].event_registration;
    match msg {
        AudioNotify::Load(meta) => {
            let ids = reg.emit("load");
            Some((AudioEvent::Load(LoadEvent(meta)), ids))
        },
        AudioNotify::TimeUpdate(time) => {
            let ids = reg.emit("timeupdate");
            Some((AudioEvent::TimeUpdate(TimeUpdateEvent(time)), ids))
        },
        AudioNotify::End => {
            let ids = reg.emit("end");
            Some((AudioEvent::End(EndEvent), ids))
        },
        AudioNotify::Finish => {
            let ids = reg.emit("finish");
            unregistry_playing(sys, &audio);
            Some((AudioEvent::Finish(FinishEvent), ids))
        },
        AudioNotify::Pause => {
            let ids = reg.emit("pause");
            Some((AudioEvent::Pause(PauseEvent), ids))
        },
        AudioNotify::Stop => {
            let ids = reg.emit("stop");
            Some((AudioEvent::Stop(StopEvent), ids))
        },
        AudioNotify::CurrentChange(info) => {
            let ids = reg.emit("currentchange");
            Some((AudioEvent::CurrentChange(CurrentChangeEvent(info)), ids))
        },
    }
}

impl Audio {
    /// Creates an audio from script options: it starts at source `index`
    /// (the first by default) and does not loop unless asked. Ids are handed
    /// out in order, so no two audios share one.
    pub fn create(sys: &mut AudioSystem, options: AudioOptions) -> (r: Result<Audio, DeftError>)
        requires
            old(sys).wf(),
            old(sys).next_id < u32::MAX,
        ensures
            final(sys).wf(),
            r matches Ok(a) && a.id == old(sys).next_id,
            final(sys).next_id == old(sys).next_id + 1,
            final(sys).audios@.drop_last() == old(sys).audios@,
            final(sys).audios@.last().event_registration@.len() == 0,
            options_sources(options, final(sys).audios@.last().sources),
            final(sys).playing@ == old(sys).playing@,
            final(sys).commands@ == old(sys).commands@,
    {
        let id = sys.next_id;
        sys.next_id = id + 1;
        let sources = AudioSources {
            urls: options.sources,
            next_index: match options.index {
                Some(i) => i,
                None => 0,
            },
            cache_dir: options.cache_dir,
            auto_loop: match options.auto_loop {
                Some(b) => b,
                None => false,
            },
            downloading: false,
        };
        let audio = AudioData::new(id, sources);
        sys.audios.push(audio);
        proof {
            assert(sys.audios@.drop_last() =~= old(sys).audios@);
        }
        Ok(Audio { id })
    }

    /// Starts playing: the audio joins the playing ones and the player is
    /// asked to play it.
    pub fn play(sys: &mut AudioSystem, audio: Audio) -> (r: Result<(), DeftError>)
        requires
            old(sys).wf(),
            old(sys).valid(audio),
        ensures
            r is Ok,
            final(sys).wf(),
            final(sys).playing@ == old(sys).playing@.insert(audio.id, audio),
            final(sys).commands@ == old(sys).commands@.push(PlayerCommand::Play(audio.id)),
            final(sys).audios@ == old(sys).audios@,
            final(sys).next_id == old(sys).next_id,
    {
        registry_playing(sys, &audio);
        sys.commands.push(PlayerCommand::Play(audio.id));
        Ok(())
    }

    /// Asks the player to pause the audio.
    pub fn pause(sys: &mut AudioSystem, audio: Audio) -> (r: Result<(), DeftError>)
        requires
            old(sys).wf(),
        ensures
            r is Ok,
            final(sys).wf(),
            final(sys).playing@ == old(sys).playing@,
            final(sys).commands@ == old(sys).commands@.push(PlayerCommand::Pause(audio.id)),
            final(sys).audios@ == old(sys).audios@,
            final(sys).next_id == old(sys).next_id,
    {
        sys.commands.push(PlayerCommand::Pause(audio.id));
        Ok(())
    }

    /// Stops playing: the audio leaves the playing ones and the player is
    /// asked to stop it.
    pub fn stop(&self, sys: &mut AudioSystem) -> (r: Result<(), DeftError>)
        requires
            old(sys).wf(),
        ensures
            r is Ok,
            final(sys).wf(),
            final(sys).playing@ == old(sys).playing@.remove(self.id),
            final(sys).commands@ == old(sys).commands@.push(PlayerCommand::Stop(self.id)),
            final(sys).audios@ == old(sys).audios@,
            final(sys).next_id == old(sys).next_id,
    {
        unregistry_playing(sys, self);
        sys.commands.push(PlayerCommand::Stop(self.id));
        Ok(())
    }

    /// Adds a listener for a script event type; an unknown type is refused.
    pub fn add_event_listener(&mut self, sys: &mut AudioSystem, event_type: String) -> (r: Result<u32, DeftError>)
        requires
            old(sys).wf(),
            old(sys).valid(*old(self)),
            old(sys).data(*old(self)).event_registration.next_id < u32::MAX,
        ensures
            *final(self) == *old(self),
            final(sys).wf(),
            match r {
                Ok(lid) => is_audio_event_type(event_type@) && lid == old(sys).data(*old(self)).event_registration.next_id
                    && listeners_changed(*old(sys), *final(sys), old(self).id, |reg: EventRegistration|
                        reg@ == old(sys).data(*old(self)).event_registration@.push((lid, event_type@))),
                Err(e) => !is_audio_event_type(event_type@) && *final(sys) == *old(sys)
                    && e.message@ == "unknown event_type:"@ + event_type@,
            },
    {
        let t = event_type.as_str();
        if crate::text::str_eq(t, "load") || crate::text::str_eq(t, "timeupdate")
            || crate::text::str_eq(t, "end") || crate::text::str_eq(t, "finish")
            || crate::text::str_eq(t, "pause") || crate::text::str_eq(t, "stop")
            || crate::text::str_eq(t, "currentchange") {
            Ok(self.register_event_listener(sys, t))
        } else {
            let message = String::from_str("unknown event_type:").concat(t);
            Err(DeftError { message })
        }
    }

    /// Removes the listener `id` when it listens to `event_type`.
    pub fn remove_event_listener(&mut self, sys: &mut AudioSystem, event_type: String, id: u32) -> (r: Result<(), DeftError>)
        requires
            old(sys).wf(),
            old(sys).valid(*old(self)),
        ensures
            r is Ok,
            *final(self) == *old(self),
            final(sys).wf(),
            listeners_changed(*old(sys), *final(sys), old(self).id, |reg: EventRegistration|
                reg@ == old(sys).data(*old(self)).event_registration@.filter(
                    |l: (u32, Seq<char>)| !(l.0 == id && l.1 == event_type@),
                )),
    {
        let i = (self.id - 1) as usize;
        self.audios_entry_remove(sys, i, event_type.as_str(), id);
        Ok(())
    }

    fn audios_entry_remove(&self, sys: &mut AudioSystem, i: usize, event_type: &str, id: u32)
        requires
            old(sys).wf(),
            old(sys).valid(*self),
            i == self.id - 1,
        ensures
            final(sys).wf(),
            listeners_changed(*old(sys), *final(sys), self.id, |reg: EventRegistration|
                reg@ == old(sys).data(*self).event_registration@.filter(
                    |l: (u32, Seq<char>)| !(l.0 == id && l.1 == event_type@),
                )),
    {
        sys.audios[i].event_registration.remove_event_listener(event_type, id);
        proof {
            assert(sys.audios@[i as int].id == old(sys).audios@[i as int].id);
        }
    }

    /// Adds a listener for events of type `event_type`; returns its id.
    pub fn register_event_listener(&mut self, sys: &mut AudioSystem, event_type: &str) -> (lid: u32)
        requires
            old(sys).wf(),
            old(sys).valid(*old(self)),
            old(sys).data(*old(self)).event_registration.next_id < u32::MAX,
        ensures
            *final(self) == *old(self),
            final(sys).wf(),
            lid == old(sys).data(*old(self)).event_registration.next_id,
            listeners_changed(*old(sys), *final(sys), old(self).id, |reg: EventRegistration|
                reg@ == old(sys).data(*old(self)).event_registration@.push((lid, event_type@))
                    && reg.next_id == old(sys).data(*old(self)).event_registration.next_id + 1),
    {
        let i = (self.id - 1) as usize;
        let lid = sys.audios[i].event_registration.register_event_listener(event_type);
        proof {
            assert(sys.audios@[i as int].id == old(sys).audios@[i as int].id);
        }
        lid
    }

    /// Removes the listener `id`, whatever event type it listens to.
    pub fn unregister_event_listener(&mut self, sys: &mut AudioSystem, id: u32)
        requires
            old(sys).wf(),
            old(sys).valid(*old(self)),
        ensures
            *final(self) == *old(self),
            final(sys).wf(),
            listeners_changed(*old(sys), *final(sys), old(self).id, |reg: EventRegistration|
                reg@ == old(sys).data(*old(self)).event_registration@.filter(
                    |l: (u32, Seq<char>)| l.0 != id,
                )),
    {
        let i = (self.id - 1) as usize;
        sys.audios[i].event_registration.unregister_event_listener(id);
        proof {
            assert(sys.audios@[i as int].id == old(sys).audios@[i as int].id);
        }
    }
}

} // verus!
