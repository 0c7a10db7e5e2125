use vstd::prelude::*;

verus! {

/// The number of business stages a visitor can pick from.
pub const STAGE_COUNT: usize = 5;

/// The button label of stage `index`.
pub open spec fn stage_label_text(index: int) -> Seq<char> {
    if index == 0 {
        "An idea"@
    } else if index == 1 {
        "First sale"@
    } else if index == 2 {
        "Growing"@
    } else if index == 3 {
        "Experienced"@
    } else {
        "Capital"@
    }
}

/// The prompt shown for stage `index`.
pub open spec fn stage_prompt_text(index: int) -> Seq<char> {
    if index == 0 {
        "Bring the rough thought. Find the person who asks the useful question."@
    } else if index == 1 {
        "Meet customers. Test whether value really changes hands."@
    } else if index == 2 {
        "Share the knot you cannot untie alone. Someone here may have the thread."@
    } else if index == 3 {
        "Bring a lesson, an introduction or a door you can hold open."@
    } else {
        "Meet builders early. Listen for conviction before the pitch is polished."@
    }
}

/// The button label of stage `index`.
pub fn stage_label(index: usize) -> (label: &'static str)
    requires
        index < STAGE_COUNT,
    ensures
        label@ == stage_label_text(index as int),
        index == 0 ==> label@ == "An idea"@,
        index == 1 ==> label@ == "First sale"@,
        index == 2 ==> label@ == "Growing"@,
        index == 3 ==> label@ == "Experienced"@,
        index == 4 ==> label@ == "Capital"@,
{
    if index == 0 {
        "An idea"
    } else if index == 1 {
        "First sale"
    } else if index == 2 {
        "Growing"
    } else if index == 3 {
        "Experienced"
    } else {
        "Capital"
    }
}

/// The prompt shown for stage `index`.
pub fn stage_prompt(index: usize) -> (prompt: &'static str)
    requires
        index < STAGE_COUNT,
    ensures
        prompt@ == stage_prompt_text(index as int),
        index == 0 ==> prompt@ == "Bring the rough thought. Find the person who asks the useful question."@,
        index == 1 ==> prompt@ == "Meet customers. Test whether value really changes hands."@,
        index == 2 ==> prompt@ == "Share the knot you cannot untie alone. Someone here may have the thread."@,
        index == 3 ==> prompt@ == "Bring a lesson, an introduction or a door you can hold open."@,
        index == 4 ==> prompt@ == "Meet builders early. Listen for conviction before the pitch is polished."@,
{
    if index == 0 {
        "Bring the rough thought. Find the person who asks the useful question."
    } else if index == 1 {
        "Meet customers. Test whether value really changes hands."
    } else if index == 2 {
        "Share the knot you cannot untie alone. Someone here may have the thread."
    } else if index == 3 {
        "Bring a lesson, an introduction or a door you can hold open."
    } else {
        "Meet builders early. Listen for conviction before the pitch is polished."
    }
}

/// The button of stage `index` is active when that stage is `selected`.
pub open spec fn stage_active(selected: nat, index: int) -> bool {
    index == selected
}

/// The stage picker: which of the `STAGE_COUNT` stages is selected.
pub struct StagePicker {
    selected: usize,
}

impl View for StagePicker {
    type V = nat;

    closed spec fn view(&self) -> nat {
        self.selected as nat
    }
}

impl StagePicker {
    /// The selection always names one of the stages.
    pub open spec fn wf(&self) -> bool {
        self@ < STAGE_COUNT
    }

    /// A picker with the first stage selected.
    pub fn new() -> (picker: Self)
        ensures
            picker@ == 0,
            picker.wf(),
    {
        StagePicker { selected: 0 }
    }

    /// Select stage `index`, as a click on its button does.
    pub fn select(&mut self, index: usize)
        requires
            index < STAGE_COUNT,
        ensures
            final(self)@ == index,
            final(self).wf(),
    {
        self.selected = index;
    }

    /// The selected stage.
    pub fn selected(&self) -> (index: usize)
        ensures
            index == self@,
    {
        self.selected
    }

    /// Whether the button of stage `index` is shown as active.
    pub fn is_active(&self, index: usize) -> (active: bool)
        ensures
            active == stage_active(self@, index as int),
            active == (index == self@),
    {
        self.selected == index
    }

    /// The prompt of the selected stage.
    pub fn answer(&self) -> (prompt: &'static str)
        requires
            self.wf(),
        ensures
            prompt@ == stage_prompt_text(self@ as int),
    {
        stage_prompt(self.selected)
    }
}

/// The stage table: each stage's label and prompt, in the order the
/// buttons appear, with the first stage ("An idea") selected when the page
/// loads.
pub proof fn lemma_stage_table()
    ensures
        stage_label_text(0) == "An idea"@,
        stage_label_text(1) == "First sale"@,
        stage_label_text(2) == "Growing"@,
        stage_label_text(3) == "Experienced"@,
        stage_label_text(4) == "Capital"@,
        stage_prompt_text(0) == "Bring the rough thought. Find the person who asks the useful question."@,
        stage_prompt_text(1) == "Meet customers. Test whether value really changes hands."@,
        stage_prompt_text(2) == "Share the knot you cannot untie alone. Someone here may have the thread."@,
        stage_prompt_text(3) == "Bring a lesson, an introduction or a door you can hold open."@,
        stage_prompt_text(4) == "Meet builders early. Listen for conviction before the pitch is polished."@,
{
}

/// Exactly one stage button is active at any time: the selected one.
pub proof fn lemma_one_active_stage(picker: StagePicker)
    requires
        picker.wf(),
    ensures
        stage_active(picker@, picker@ as int),
        forall|index: int, other: int|
            #![trigger stage_active(picker@, index), stage_active(picker@, other)]
            stage_active(picker@, index) && stage_active(picker@, other) ==> index == other
                && 0 <= index < STAGE_COUNT,
{
}

/// A click on a stage's button shows that stage's prompt and makes its
/// button the only active one.
pub proof fn lemma_select_shows_prompt(picker: StagePicker, index: int)
    requires
        0 <= index < STAGE_COUNT,
        picker@ == index,
    ensures
        picker.wf(),
        stage_prompt_text(picker@ as int) == stage_prompt_text(index),
        forall|other: int| #[trigger] stage_active(picker@, other) <==> other == index,
{
}

} // verus!
