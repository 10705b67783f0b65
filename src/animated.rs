use std::collections::HashMap;

use vstd::prelude::*;

use crate::animation::{started_from, Animation, AnimationEvent, AnimationModel};
use crate::mode::AnimationStyle;
use crate::style::Symbol;
use crate::text::{SmallTextStyle, SmallTextWidget, text_symbols};

verus! {

broadcast use vstd::std_specs::hash::group_hash_axioms;

/// `base` with the symbols of `frame` at positions below `n` laid over it.
pub open spec fn overlaid(base: Map<u16, Symbol>, frame: Map<u16, Symbol>, n: int) -> Map<
    u16,
    Symbol,
> {
    Map::new(
        |x: u16| base.contains_key(x) || (x < n && frame.contains_key(x)),
        |x: u16|
            if x < n && frame.contains_key(x) {
                frame[x]
            } else {
                base[x]
            },
    )
}

/// A styled text that can play one of its animations at a time.
pub struct AnimatedSmallTextWidget {
    pub text: SmallTextWidget,
    pub animation_styles: Vec<AnimationStyle>,
    pub active_animation: Option<Animation>,
}

impl AnimatedSmallTextWidget {
    pub open spec fn wf(&self) -> bool {
        match self.active_animation {
            Some(a) => a.wf(),
            None => true,
        }
    }

    pub fn new(text_style: SmallTextStyle, animation_styles: Vec<AnimationStyle>) -> (r: Self)
        requires
            text_style.text@.len() <= u16::MAX + 1,
        ensures
            r.wf(),
            r.text.symbols@ == text_symbols(text_style.text@, text_style.symbol_styles@),
            r.animation_styles@ == animation_styles@,
            r.active_animation is None,
    {
        AnimatedSmallTextWidget {
            text: SmallTextWidget::new(text_style),
            animation_styles,
            active_animation: None,
        }
    }

    /// Starts animation `key` (an index into the animation styles) from
    /// the static symbols; does nothing when there is no such animation.
    pub fn enable_animation(&mut self, key: usize)
        requires
            old(self).wf(),
        ensures
            final(self).wf(),
            final(self).text == old(self).text,
            final(self).animation_styles == old(self).animation_styles,
            key >= old(self).animation_styles@.len() ==> final(self).active_animation
                == old(self).active_animation,
            key < old(self).animation_styles@.len() ==> final(self).active_animation is Some
                && started_from(
                final(self).active_animation.unwrap()@,
                old(self).animation_styles@[key as int],
                old(self).text.symbols@,
            ),
    {
        if key < self.animation_styles.len() {
            let style = self.animation_styles[key].duplicate();
            let symbols = self.text.symbols.clone();
            self.active_animation = Some(Animation::new(style, symbols));
        }
    }

    /// The event of the running animation's last frame request, once (see
    /// [`Animation::take_last_event`]); `None` when no animation runs.
    pub fn take_animation_event(&mut self) -> (r: Option<AnimationEvent>)
        ensures
            final(self).text == old(self).text,
            final(self).animation_styles == old(self).animation_styles,
            match old(self).active_animation {
                Some(a) => r == a@.last_event && final(self).active_animation is Some
                    && final(self).active_animation.unwrap()@ == (AnimationModel {
                    last_event: None,
                    ..a@
                }),
                None => r is None && final(self).active_animation is None,
            },
    {
        match &mut self.active_animation {
            Some(a) => a.take_last_event(),
            None => None,
        }
    }

    /// Stops and drops the running animation.
    pub fn disable_animation(&mut self)
        ensures
            final(self).text == old(self).text,
            final(self).animation_styles == old(self).animation_styles,
            final(self).active_animation is None,
    {
        self.active_animation = None;
    }

    /// Pauses the running animation, if any.
    pub fn pause_animation(&mut self)
        ensures
            final(self).text == old(self).text,
            final(self).animation_styles == old(self).animation_styles,
            match old(self).active_animation {
                Some(a) => final(self).active_animation is Some
                    && final(self).active_animation.unwrap()@ == a@.paused(),
                None => final(self).active_animation is None,
            },
    {
        match &mut self.active_animation {
            Some(a) => a.pause(),
            None => {},
        }
    }

    /// Unpauses the running animation, if any.
    pub fn unpause_animation(&mut self)
        ensures
            final(self).text == old(self).text,
            final(self).animation_styles == old(self).animation_styles,
            match old(self).active_animation {
                Some(a) => final(self).active_animation is Some
                    && final(self).active_animation.unwrap()@ == a@.unpaused(),
                None => final(self).active_animation is None,
            },
    {
        match &mut self.active_animation {
            Some(a) => a.unpause(),
            None => {},
        }
    }

    /// Requests an advance of the running animation, if any.
    pub fn advance_animation(&mut self)
        ensures
            final(self).text == old(self).text,
            final(self).animation_styles == old(self).animation_styles,
            match old(self).active_animation {
                Some(a) => final(self).active_animation is Some
                    && final(self).active_animation.unwrap()@ == a@.advanced(),
                None => final(self).active_animation is None,
            },
    {
        match &mut self.active_animation {
            Some(a) => a.advance(),
            None => {},
        }
    }

    /// The symbols to paint at time `now` (milliseconds): the animation's
    /// frame laid over the static symbols. When the animation has ended it
    /// is dropped and the static symbols are painted.
    pub fn symbols_at(&mut self, now: u64) -> (r: HashMap<u16, Symbol>)
        requires
            old(self).wf(),
        ensures
            final(self).wf(),
            final(self).text == old(self).text,
            final(self).animation_styles == old(self).animation_styles,
            match old(self).active_animation {
                None => final(self).active_animation is None && r@ == old(self).text.symbols@,
                Some(a) => {
                    let (next, frame) = a@.next_frame(now);
                    match frame {
                        Some(f) => final(self).active_animation is Some
                            && final(self).active_animation.unwrap()@ == next
                            && r@ == overlaid(old(self).text.symbols@, f, old(self).text.char_count as int),
                        None => final(self).active_animation is None && r@ == old(self).text.symbols@,
                    }
                },
            },
    {
        let mut symbols = self.text.symbols.clone();
        let frame = match &mut self.active_animation {
            Some(a) => a.next_frame_at(now),
            None => {
                return symbols;
            },
        };
        match frame {
            None => {
                self.active_animation = None;
                symbols
            },
            Some(f) => {
                let ghost base = symbols@;
                let n = self.text.char_count;
                let mut x: usize = 0;
                while x < n && x <= u16::MAX as usize
                    invariant
                        n == self.text.char_count,
                        x <= n,
                        x <= u16::MAX + 1,
                        base == self.text.symbols@,
                        forall|k: u16| #[trigger] symbols@.contains_key(k) <==> (base.contains_key(k)
                            || (k < x && f.symbols@.contains_key(k))),
                        forall|k: u16| #[trigger] symbols@.contains_key(k) ==> symbols@[k] == if k < x
                            && f.symbols@.contains_key(k) {
                            f.symbols@[k]
                        } else {
                            base[k]
                        },
                    decreases n - x,
                {
                    let k = x as u16;
                    match f.symbols.get(&k) {
                        Some(s) => {
                            symbols.insert(k, *s);
                        },
                        None => {},
                    }
                    x = x + 1;
                }
                proof {
                    assert(symbols@ =~= overlaid(base, f.symbols@, n as int));
                }
                symbols
            },
        }
    }
}

} // verus!
