//! Player controls: the actions that the tray menu and the keyboard
//! shortcuts trigger, and the script each one runs in the active tab.
use vstd::prelude::*;
use crate::text::str_eq;

verus! {

/// A player control.
#[derive(Clone, Copy, Debug, PartialEq, Eq, Structural)]
pub enum MediaAction {
    /// Play or pause the video.
    Toggle,
    /// Go to the next video.
    Next,
    /// Go to the previous video, or to the start of this one.
    Previous,
    /// Skip ten seconds ahead.
    SeekForward,
    /// Skip ten seconds back.
    SeekBackward,
    /// Raise the volume by five percent.
    VolumeUp,
    /// Lower the volume by five percent.
    VolumeDown,
    /// Mute or unmute.
    Mute,
    /// Toggle theater mode.
    Theater,
    /// Play faster.
    SpeedUp,
    /// Play slower.
    SpeedDown,
    /// Play at normal speed.
    SpeedReset,
}

/// The action named `name`, if there is one.
pub open spec fn media_action_named(name: Seq<char>) -> Option<MediaAction> {
    if name == "toggle"@ {
        Some(MediaAction::Toggle)
    }
    else if name == "next"@ {
        Some(MediaAction::Next)
    }
    else if name == "previous"@ {
        Some(MediaAction::Previous)
    }
    else if name == "seek_forward"@ {
        Some(MediaAction::SeekForward)
    }
    else if name == "seek_backward"@ {
        Some(MediaAction::SeekBackward)
    }
    else if name == "volume_up"@ {
        Some(MediaAction::VolumeUp)
    }
    else if name == "volume_down"@ {
        Some(MediaAction::VolumeDown)
    }
    else if name == "mute"@ {
        Some(MediaAction::Mute)
    }
    else if name == "theater"@ {
        Some(MediaAction::Theater)
    }
    else if name == "speed_up"@ {
        Some(MediaAction::SpeedUp)
    }
    else if name == "speed_down"@ {
        Some(MediaAction::SpeedDown)
    }
    else if name == "speed_reset"@ {
        Some(MediaAction::SpeedReset)
    } else {
        None
    }
}

/// Each control's name selects that control: "toggle" play/pause, "next"
/// the next video, "previous" the previous one, and so on, one name per
/// control; no other name selects anything.
pub proof fn law_media_action_names()
    ensures
        media_action_named("toggle"@) == Some(MediaAction::Toggle),
        media_action_named("next"@) == Some(MediaAction::Next),
        media_action_named("previous"@) == Some(MediaAction::Previous),
        media_action_named("seek_forward"@) == Some(MediaAction::SeekForward),
        media_action_named("seek_backward"@) == Some(MediaAction::SeekBackward),
        media_action_named("volume_up"@) == Some(MediaAction::VolumeUp),
        media_action_named("volume_down"@) == Some(MediaAction::VolumeDown),
        media_action_named("mute"@) == Some(MediaAction::Mute),
        media_action_named("theater"@) == Some(MediaAction::Theater),
        media_action_named("speed_up"@) == Some(MediaAction::SpeedUp),
        media_action_named("speed_down"@) == Some(MediaAction::SpeedDown),
        media_action_named("speed_reset"@) == Some(MediaAction::SpeedReset),
{
    reveal_strlit("toggle");
    assert("toggle"@.len() == 6);
    reveal_strlit("next");
    assert("next"@.len() == 4);
    reveal_strlit("previous");
    assert("previous"@.len() == 8);
    reveal_strlit("seek_forward");
    assert("seek_forward"@.len() == 12);
    reveal_strlit("seek_backward");
    assert("seek_backward"@.len() == 13);
    reveal_strlit("volume_up");
    assert("volume_up"@.len() == 9);
    reveal_strlit("volume_down");
    assert("volume_down"@.len() == 11);
    reveal_strlit("mute");
    assert("mute"@.len() == 4);
    reveal_strlit("theater");
    assert("theater"@.len() == 7);
    reveal_strlit("speed_up");
    assert("speed_up"@.len() == 8);
    reveal_strlit("speed_down");
    assert("speed_down"@.len() == 10);
    reveal_strlit("speed_reset");
    assert("speed_reset"@.len() == 11);
    assert("mute"@[0] != "next"@[0]);
    assert("speed_up"@[0] != "previous"@[0]);
    assert("speed_reset"@[0] != "volume_down"@[0]);
}

/// A name that is not one of the controls' names selects nothing, and two
/// names that select the same control are the same name.
pub proof fn law_media_action_names_distinct(a: Seq<char>, b: Seq<char>)
    ensures
        media_action_named(a) is Some && media_action_named(a) == media_action_named(b) ==> a == b,
{
}

impl MediaAction {
    /// The action named `name` (see [`media_action_named`]).
    pub fn parse(name: &str) -> (r: Option<MediaAction>)
        ensures
            r == media_action_named(name@),
    {
        if str_eq(name, "toggle") {
            return Some(MediaAction::Toggle);
        }
        if str_eq(name, "next") {
            return Some(MediaAction::Next);
        }
        if str_eq(name, "previous") {
            return Some(MediaAction::Previous);
        }
        if str_eq(name, "seek_forward") {
            return Some(MediaAction::SeekForward);
        }
        if str_eq(name, "seek_backward") {
            return Some(MediaAction::SeekBackward);
        }
        if str_eq(name, "volume_up") {
            return Some(MediaAction::VolumeUp);
        }
        if str_eq(name, "volume_down") {
            return Some(MediaAction::VolumeDown);
        }
        if str_eq(name, "mute") {
            return Some(MediaAction::Mute);
        }
        if str_eq(name, "theater") {
            return Some(MediaAction::Theater);
        }
        if str_eq(name, "speed_up") {
            return Some(MediaAction::SpeedUp);
        }
        if str_eq(name, "speed_down") {
            return Some(MediaAction::SpeedDown);
        }
        if str_eq(name, "speed_reset") {
            return Some(MediaAction::SpeedReset);
        }
        None
    }

    /// The script that performs the action in the page.
    pub open spec fn script_spec(self) -> Seq<char> {
        match self {
            MediaAction::Toggle => "(function(){const v=document.querySelector('video.html5-main-video,video');if(v){v.paused?v.play():v.pause();}})();"@,
            MediaAction::Next => "(function(){const b=document.querySelector('.ytp-next-button');if(b)b.click();})();"@,
            MediaAction::Previous => "(function(){const b=document.querySelector('.ytp-prev-button');if(b)b.click();else{const v=document.querySelector('video.html5-main-video,video');if(v)v.currentTime=0;}})();"@,
            MediaAction::SeekForward => "(function(){const v=document.querySelector('video.html5-main-video,video');if(v)v.currentTime=Math.min(v.duration||Infinity,v.currentTime+10);})();"@,
            MediaAction::SeekBackward => "(function(){const v=document.querySelector('video.html5-main-video,video');if(v)v.currentTime=Math.max(0,v.currentTime-10);})();"@,
            MediaAction::VolumeUp => "(function(){const v=document.querySelector('video.html5-main-video,video');if(v)v.volume=Math.min(1,v.volume+.05);})();"@,
            MediaAction::VolumeDown => "(function(){const v=document.querySelector('video.html5-main-video,video');if(v)v.volume=Math.max(0,v.volume-.05);})();"@,
            MediaAction::Mute => "(function(){const v=document.querySelector('video.html5-main-video,video');if(v)v.muted=!v.muted;})();"@,
            MediaAction::Theater => "(function(){const b=document.querySelector('.ytp-size-button');if(b)b.click();})();"@,
            MediaAction::SpeedUp => "window.__YTD_PLAYBACK__?.speedUp();"@,
            MediaAction::SpeedDown => "window.__YTD_PLAYBACK__?.speedDown();"@,
            MediaAction::SpeedReset => "window.__YTD_PLAYBACK__?.resetSpeed();"@,
        }
    }

    /// The script that performs the action in the page (see
    /// [`MediaAction::script_spec`]).
    pub fn script(self) -> (r: &'static str)
        ensures
            r@ == self.script_spec(),
    {
        match self {
            MediaAction::Toggle => "(function(){const v=document.querySelector('video.html5-main-video,video');if(v){v.paused?v.play():v.pause();}})();",
            MediaAction::Next => "(function(){const b=document.querySelector('.ytp-next-button');if(b)b.click();})();",
            MediaAction::Previous => "(function(){const b=document.querySelector('.ytp-prev-button');if(b)b.click();else{const v=document.querySelector('video.html5-main-video,video');if(v)v.currentTime=0;}})();",
            MediaAction::SeekForward => "(function(){const v=document.querySelector('video.html5-main-video,video');if(v)v.currentTime=Math.min(v.duration||Infinity,v.currentTime+10);})();",
            MediaAction::SeekBackward => "(function(){const v=document.querySelector('video.html5-main-video,video');if(v)v.currentTime=Math.max(0,v.currentTime-10);})();",
            MediaAction::VolumeUp => "(function(){const v=document.querySelector('video.html5-main-video,video');if(v)v.volume=Math.min(1,v.volume+.05);})();",
            MediaAction::VolumeDown => "(function(){const v=document.querySelector('video.html5-main-video,video');if(v)v.volume=Math.max(0,v.volume-.05);})();",
            MediaAction::Mute => "(function(){const v=document.querySelector('video.html5-main-video,video');if(v)v.muted=!v.muted;})();",
            MediaAction::Theater => "(function(){const b=document.querySelector('.ytp-size-button');if(b)b.click();})();",
            MediaAction::SpeedUp => "window.__YTD_PLAYBACK__?.speedUp();",
            MediaAction::SpeedDown => "window.__YTD_PLAYBACK__?.speedDown();",
            MediaAction::SpeedReset => "window.__YTD_PLAYBACK__?.resetSpeed();",
        }
    }
}

} // verus!
