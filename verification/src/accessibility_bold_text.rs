use vstd::prelude::*;

verus! {

/// Whether bold text is desired on labels and such.
///
/// Controlled in `Settings > Accessibility > Display & Text Size > Bold Text`.
#[derive(Clone, Copy, Debug, PartialEq, Eq, Hash)]
pub struct AccessibilityBoldText(pub bool);

impl AccessibilityBoldText {
    /// Brings the stored setting in line with a freshly read value; writes only when it
    /// differs, and says whether it wrote.
    pub fn refresh(&mut self, new: bool) -> (changed: bool)
        ensures
            final(self).0 == new,
            changed == (old(self).0 != new),
    {
        if self.0 != new {
            self.0 = new;
            true
        } else {
            false
        }
    }
}

/// Keeps [`AccessibilityBoldText`] up to date with the system setting.
pub struct AccessibilityBoldTextPlugin {
    _priv: (),
}

impl AccessibilityBoldTextPlugin {
    pub fn new() -> Self {
        Self { _priv: () }
    }
}

} // verus!
