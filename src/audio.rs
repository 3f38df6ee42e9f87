use vstd::prelude::*;

verus! {

/// A sound that gameplay asks the audio to play.
#[derive(Copy, Clone, PartialEq, Eq, Debug, Structural)]
pub enum AudioEvent {
    Jump,
    LevelComplete,
}

impl AudioEvent {
    pub open spec fn spec_asset_path(self) -> Seq<char> {
        match self {
            AudioEvent::Jump => "audio/jump.wav"@,
            AudioEvent::LevelComplete => "audio/short_yippee.ogg"@,
        }
    }

    /// The sound file that this event plays once.
    pub fn asset_path(&self) -> (r: &'static str)
        ensures
            r@ == self.spec_asset_path(),
    {
        proof {
            reveal_strlit("audio/jump.wav");
            reveal_strlit("audio/short_yippee.ogg");
        }
        match self {
            AudioEvent::Jump => "audio/jump.wav",
            AudioEvent::LevelComplete => "audio/short_yippee.ogg",
        }
    }
}

/// The sound effect volume, in tenths of full volume.
#[derive(Copy, Clone, PartialEq, Eq, Debug, Structural)]
pub struct VolumeLevel {
    pub tenths: u8,
}

impl VolumeLevel {
    pub open spec fn wf(self) -> bool {
        self.tenths <= 10
    }

    /// Half volume.
    pub fn new() -> (r: VolumeLevel)
        ensures
            r.tenths == 5,
            r.wf(),
    {
        VolumeLevel { tenths: 5 }
    }

    /// The volume keys of one tick: louder by a tenth up to full, else quieter by a
    /// tenth down to silence; louder wins when both are pressed and the volume is
    /// not yet full.
    pub fn adjust(&mut self, louder: bool, quieter: bool)
        requires
            old(self).wf(),
        ensures
            final(self).wf(),
            final(self).tenths == if louder && old(self).tenths < 10 {
                old(self).tenths + 1
            } else if quieter && old(self).tenths > 0 {
                old(self).tenths - 1
            } else {
                old(self).tenths as int
            },
    {
        if louder && self.tenths < 10 {
            self.tenths = self.tenths + 1;
        } else if quieter && self.tenths > 0 {
            self.tenths = self.tenths - 1;
        }
    }
}

} // verus!
