use crate::legend::{legend_view, Legend};
use vstd::prelude::*;

verus! {

/// Whether a legend is on screen, and which: the feed's own legend when it
/// has one, else the scene's.
pub struct ShowLegend {
    pub showing: bool,
    pub default_legend: Option<Legend>,
    pub current_legend: Option<Legend>,
}

impl ShowLegend {
    pub open spec fn new_spec(legend: Option<Legend>) -> ShowLegend {
        ShowLegend { showing: false, default_legend: legend, current_legend: None }
    }

    /// `self` off screen.
    pub open spec fn hidden(self) -> ShowLegend {
        ShowLegend { showing: false, current_legend: None, ..self }
    }

    /// Hidden, with `legend` as the feed's own legend.
    pub fn new(legend: Option<Legend>) -> (r: ShowLegend)
        ensures
            r == Self::new_spec(legend),
    {
        ShowLegend { showing: false, default_legend: legend, current_legend: None }
    }

    /// Hidden, with no legend at all.
    pub fn empty() -> (r: ShowLegend)
        ensures
            !r.showing,
            r.default_legend.is_none(),
            r.current_legend.is_none(),
    {
        ShowLegend { showing: false, default_legend: None, current_legend: None }
    }

    /// Takes the legend off screen.
    pub fn hide_legend(&mut self)
        ensures
            *final(self) == old(self).hidden(),
    {
        self.showing = false;
        self.current_legend = None;
    }

    /// Shows the legend when hidden, hides it when shown; on showing, the
    /// feed's own legend is picked, else `scene_legend`.
    pub fn toggle_show(&mut self, scene_legend: Option<Legend>)
        ensures
            final(self).showing == !old(self).showing,
            final(self).default_legend == old(self).default_legend,
            final(self).showing ==> legend_view(final(self).current_legend) == if old(
                self,
            ).default_legend.is_some() {
                legend_view(old(self).default_legend)
            } else {
                legend_view(scene_legend)
            },
            !final(self).showing ==> final(self).current_legend == old(self).current_legend,
    {
        self.showing = !self.showing;
        if self.showing {
            self.current_legend = match &self.default_legend {
                Some(legend) => Some(legend.clone()),
                None => scene_legend,
            };
        }
    }
}

} // verus!
