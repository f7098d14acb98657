//! The sound board of the cabinet: which sounds start and stop when the
//! game writes to the sound ports.

use vstd::prelude::*;

verus! {

/// The nine sounds of the game.
#[derive(Clone, Copy, Debug, PartialEq, Eq)]
pub enum Sound {
    Ufo,
    Shoot,
    PlayerDeath,
    InvaderDeath,
    Invader1,
    Invader2,
    Invader3,
    Invader4,
    InvaderHit,
}

/// What the host's audio output is asked to do.
#[derive(Clone, Copy, Debug, PartialEq, Eq)]
pub enum SoundCommand {
    /// Play the sound over and over, until it is stopped.
    Loop(Sound),
    /// Play the sound once.
    Once(Sound),
    /// Stop the sound.
    Stop(Sound),
}

/// Which sounds are switched on.
#[derive(Clone, Copy, Debug, PartialEq, Eq)]
pub struct Channels {
    pub ufo: bool,
    pub shoot: bool,
    pub player_death: bool,
    pub invader_death: bool,
    pub invader1: bool,
    pub invader2: bool,
    pub invader3: bool,
    pub invader4: bool,
    pub invader_hit: bool,
}

/// Whether bit `index` of `bits` is set, for an index from 0 to 4.
pub open spec fn pin(bits: u8, index: int) -> bool {
    if index == 0 {
        bits as int % 2 == 1
    } else if index == 1 {
        (bits as int / 2) % 2 == 1
    } else if index == 2 {
        (bits as int / 4) % 2 == 1
    } else if index == 3 {
        (bits as int / 8) % 2 == 1
    } else {
        (bits as int / 16) % 2 == 1
    }
}

/// What a looping sound asks for when its pin is `pin` and it was
/// `enabled` before: a start on a rising pin, a stop on a falling one.
pub open spec fn looping(pin: bool, enabled: bool, sound: Sound) -> Seq<SoundCommand> {
    if pin && !enabled {
        seq![SoundCommand::Loop(sound)]
    } else if !pin && enabled {
        seq![SoundCommand::Stop(sound)]
    } else {
        Seq::empty()
    }
}

/// What a sound that plays once asks for: a start on a rising pin.
pub open spec fn once(pin: bool, enabled: bool, sound: Sound) -> Seq<SoundCommand> {
    if pin && !enabled {
        seq![SoundCommand::Once(sound)]
    } else {
        Seq::empty()
    }
}

impl Channels {
    /// All sounds off.
    pub open spec fn silent() -> Channels {
        Channels {
            ufo: false,
            shoot: false,
            player_death: false,
            invader_death: false,
            invader1: false,
            invader2: false,
            invader3: false,
            invader4: false,
            invader_hit: false,
        }
    }

    /// The channels after a write of `bits` to port 3.
    pub open spec fn after_port3(self, bits: u8) -> Channels {
        Channels {
            ufo: pin(bits, 0),
            shoot: pin(bits, 1),
            player_death: pin(bits, 2),
            invader_death: pin(bits, 3),
            ..self
        }
    }

    /// The commands that a write of `bits` to port 3 gives, in order.
    pub open spec fn commands_port3(self, bits: u8) -> Seq<SoundCommand> {
        looping(pin(bits, 0), self.ufo, Sound::Ufo) + once(pin(bits, 1), self.shoot, Sound::Shoot)
            + once(pin(bits, 2), self.player_death, Sound::PlayerDeath) + once(
            pin(bits, 3),
            self.invader_death,
            Sound::InvaderDeath,
        )
    }

    /// The channels after a write of `bits` to port 5.
    pub open spec fn after_port5(self, bits: u8) -> Channels {
        Channels {
            invader1: pin(bits, 0),
            invader2: pin(bits, 1),
            invader3: pin(bits, 2),
            invader4: pin(bits, 3),
            invader_hit: pin(bits, 4),
            ..self
        }
    }

    /// The commands that a write of `bits` to port 5 gives, in order.
    pub open spec fn commands_port5(self, bits: u8) -> Seq<SoundCommand> {
        once(pin(bits, 0), self.invader1, Sound::Invader1) + once(
            pin(bits, 1),
            self.invader2,
            Sound::Invader2,
        ) + once(pin(bits, 2), self.invader3, Sound::Invader3) + once(
            pin(bits, 3),
            self.invader4,
            Sound::Invader4,
        ) + once(pin(bits, 4), self.invader_hit, Sound::InvaderHit)
    }
}

proof fn lemma_append_twice(before: Seq<SoundCommand>, first: Seq<SoundCommand>, second: Seq<SoundCommand>)
    ensures
        (before + first) + second == before + (first + second),
{
    assert((before + first) + second =~= before + (first + second));
}

proof fn lemma_pins(bits: u8)
    by (bit_vector)
    ensures
        (bits & 1 != 0) <==> (bits % 2 == 1),
        ((bits >> 1) & 1 != 0) <==> ((bits / 2) % 2 == 1),
        ((bits >> 2) & 1 != 0) <==> ((bits / 4) % 2 == 1),
        ((bits >> 3) & 1 != 0) <==> ((bits / 8) % 2 == 1),
        ((bits >> 4) & 1 != 0) <==> ((bits / 16) % 2 == 1),
{
}

/// The sound board: it remembers which sounds are switched on, and turns
/// writes to the sound ports into commands for the audio output.
pub struct Audio {
    // Sound enabled
    channels: Channels,
}

impl Audio {
    /// The sounds that are switched on.
    pub closed spec fn view(&self) -> Channels {
        self.channels
    }

    /// A sound board with every sound off.
    pub fn new() -> (audio: Self)
        ensures
            audio@ == Channels::silent(),
    {
        Self {
            channels: Channels {
                ufo: false,
                shoot: false,
                player_death: false,
                invader_death: false,
                invader1: false,
                invader2: false,
                invader3: false,
                invader4: false,
                invader_hit: false,
            },
        }
    }

    /// Takes a write to port 3 and appends to `commands` what the audio
    /// output is to do.
    pub fn play_port3(&mut self, bit: u8, commands: &mut Vec<SoundCommand>)
        ensures
            final(self)@ == old(self)@.after_port3(bit),
            final(commands)@ == old(commands)@ + old(self)@.commands_port3(bit),
    {
        proof {
            lemma_pins(bit);
        }
        let ghost before = commands@;
        let ghost ufo = looping(pin(bit, 0), self@.ufo, Sound::Ufo);
        let ghost shoot = once(pin(bit, 1), self@.shoot, Sound::Shoot);
        let ghost player_death = once(pin(bit, 2), self@.player_death, Sound::PlayerDeath);
        let ghost invader_death = once(pin(bit, 3), self@.invader_death, Sound::InvaderDeath);

        // UFO (looping)
        play_looping(bit & 1 != 0, &mut self.channels.ufo, Sound::Ufo, commands);

        // Shoot
        play_once((bit >> 1) & 1 != 0, &mut self.channels.shoot, Sound::Shoot, commands);
        proof {
            lemma_append_twice(before, ufo, shoot);
        }

        // Player death
        play_once(
            (bit >> 2) & 1 != 0,
            &mut self.channels.player_death,
            Sound::PlayerDeath,
            commands,
        );
        proof {
            lemma_append_twice(before, ufo + shoot, player_death);
        }

        // Invader death
        play_once(
            (bit >> 3) & 1 != 0,
            &mut self.channels.invader_death,
            Sound::InvaderDeath,
            commands,
        );
        proof {
            lemma_append_twice(before, ufo + shoot + player_death, invader_death);
        }
    }

    /// Takes a write to port 5 and appends to `commands` what the audio
    /// output is to do.
    pub fn play_port5(&mut self, bit: u8, commands: &mut Vec<SoundCommand>)
        ensures
            final(self)@ == old(self)@.after_port5(bit),
            final(commands)@ == old(commands)@ + old(self)@.commands_port5(bit),
    {
        proof {
            lemma_pins(bit);
        }
        let ghost before = commands@;
        let ghost invader1 = once(pin(bit, 0), self@.invader1, Sound::Invader1);
        let ghost invader2 = once(pin(bit, 1), self@.invader2, Sound::Invader2);
        let ghost invader3 = once(pin(bit, 2), self@.invader3, Sound::Invader3);
        let ghost invader4 = once(pin(bit, 3), self@.invader4, Sound::Invader4);
        let ghost invader_hit = once(pin(bit, 4), self@.invader_hit, Sound::InvaderHit);

        // Invader 1
        play_once(bit & 1 != 0, &mut self.channels.invader1, Sound::Invader1, commands);

        // Invader 2
        play_once((bit >> 1) & 1 != 0, &mut self.channels.invader2, Sound::Invader2, commands);
        proof {
            lemma_append_twice(before, invader1, invader2);
        }

        // Invader 3
        play_once((bit >> 2) & 1 != 0, &mut self.channels.invader3, Sound::Invader3, commands);
        proof {
            lemma_append_twice(before, invader1 + invader2, invader3);
        }

        // Invader 4
        play_once((bit >> 3) & 1 != 0, &mut self.channels.invader4, Sound::Invader4, commands);
        proof {
            lemma_append_twice(before, invader1 + invader2 + invader3, invader4);
        }

        // UFO hit
        play_once(
            (bit >> 4) & 1 != 0,
            &mut self.channels.invader_hit,
            Sound::InvaderHit,
            commands,
        );
        proof {
            lemma_append_twice(before, invader1 + invader2 + invader3 + invader4, invader_hit);
        }
    }
}

fn play_looping(pin: bool, enabled: &mut bool, sound: Sound, commands: &mut Vec<SoundCommand>)
    ensures
        *final(enabled) == pin,
        final(commands)@ == old(commands)@ + looping(pin, *old(enabled), sound),
{
    if pin && !*enabled {
        commands.push(SoundCommand::Loop(sound));
        *enabled = true;
    } else if !pin && *enabled {
        commands.push(SoundCommand::Stop(sound));
        *enabled = false;
    }
    assert(commands@ =~= old(commands)@ + looping(pin, *old(enabled), sound));
}

fn play_once(pin: bool, enabled: &mut bool, sound: Sound, commands: &mut Vec<SoundCommand>)
    ensures
        *final(enabled) == pin,
        final(commands)@ == old(commands)@ + once(pin, *old(enabled), sound),
{
    if pin && !*enabled {
        commands.push(SoundCommand::Once(sound));
        *enabled = true;
    } else if !pin && *enabled {
        *enabled = false;
    }
    assert(commands@ =~= old(commands)@ + once(pin, *old(enabled), sound));
}

} // verus!
