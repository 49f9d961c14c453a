//! Custom indicators: what the remote service tells about a script, and the
//! parameters with which a study of it is requested.

use crate::models::{FinancialPeriod, UserCookies};
use crate::study::{IndicatorInput, IndicatorInputView, InputValue, InputValueView, StudyInputs};
use crate::value::{Value, ValueView};
use std::collections::HashMap;
use vstd::prelude::*;

verus! {

/// The families of built-in indicators that can be listed.
#[derive(Debug, Clone, Copy, PartialEq, Eq)]
pub enum BuiltinIndicators {
    All,
    Fundamental,
    Standard,
    Candlestick,
}

impl BuiltinIndicators {
    /// The name by which the remote service knows the family.
    pub open spec fn text(self) -> Seq<char> {
        match self {
            BuiltinIndicators::All => "all"@,
            BuiltinIndicators::Fundamental => "fundamental"@,
            BuiltinIndicators::Standard => "standard"@,
            BuiltinIndicators::Candlestick => "candlestick"@,
        }
    }

    /// The name by which the remote service knows the family.
    pub fn to_string(&self) -> (s: String)
        ensures
            s@ == self.text(),
    {
        match self {
            BuiltinIndicators::All => "all".to_owned(),
            BuiltinIndicators::Fundamental => "fundamental".to_owned(),
            BuiltinIndicators::Standard => "standard".to_owned(),
            BuiltinIndicators::Candlestick => "candlestick".to_owned(),
        }
    }
}

#[derive(Debug, Clone, PartialEq, Eq)]
pub struct PineInfo {
    pub user_id: i64,
    pub script_name: String,
    pub script_source: String,
    pub script_id: String,
    pub script_access: String,
    pub script_version: String,
    pub extra: PineInfoExtra,
}

#[derive(Debug, Default, Clone, PartialEq, Eq)]
pub struct PineInfoExtra {
    pub financial_period: Option<FinancialPeriod>,
    pub fund_id: Option<String>,
    pub fundamental_category: Option<String>,
    pub is_auto: bool,
    pub is_beta: bool,
    pub is_built_in: bool,
    pub is_candle_stick: bool,
    pub is_fundamental_study: bool,
    pub is_hidden_study: bool,
    pub is_mtf_resolution: bool,
    pub is_new: bool,
    pub is_pine_editor_new_template: bool,
    pub is_updated: bool,
    pub kind: String,
    pub short_description: String,
    pub source_inputs_count: i64,
    pub tags: Vec<String>,
}

#[derive(Debug, Clone)]
pub struct TranslateResponse {
    pub success: bool,
    pub result: PineMetadata,
}

#[derive(Debug, Clone)]
pub struct SearchResponse {
    pub next: String,
    pub results: Vec<PineSearchResult>,
}

#[derive(Default, Debug, Clone, PartialEq, Eq)]
pub struct PineSearchResult {
    pub image_url: String,
    pub script_name: String,
    pub script_source: String,
    pub access: i64,
    pub script_id_part: String,
    pub version: String,
    pub extra: PineSearchExtra,
    pub agree_count: i64,
    pub author: PineSearchAuthor,
    pub weight: i64,
}

#[derive(Default, Debug, Clone, PartialEq, Eq)]
pub struct PineSearchExtra {
    pub kind: Option<String>,
    pub source_inputs_count: Option<i64>,
    pub is_mtf_resolution: Option<bool>,
}

#[derive(Debug, Clone, PartialEq, Eq, Default)]
pub struct PineSearchAuthor {
    pub id: i64,
    pub username: String,
    pub is_broker: bool,
}

/// What the remote service tells about a script.
#[derive(Debug, Clone, PartialEq, Eq, Default)]
pub struct PineMetadata {
    pub il: String,
    /// The template from which the script's studies are made.
    pub il_template: String,
    pub data: PineMetadataInfo,
}

#[derive(Debug, Clone, PartialEq, Eq, Default)]
pub struct PineMetadataInfo {
    pub id: String,
    pub script_id: String,
    pub description: String,
    pub short_description: String,
    pub financial_period: Option<FinancialPeriod>,
    pub grouping_key: String,
    pub is_fundamental_study: bool,
    pub is_hidden_study: bool,
    pub is_tv_script: bool,
    pub is_tv_script_stub: bool,
    pub is_price_study: bool,
    /// The inputs that the script declares, in the script's order.
    pub inputs: Vec<PineInput>,
    pub defaults: HashMap<String, Value>,
    pub palettes: HashMap<String, Value>,
    pub pine: HashMap<String, String>,
    pub plots: Vec<Plot>,
    pub styles: HashMap<String, Value>,
    pub uses_private_lib: bool,
    pub warnings: Vec<Value>,
}

#[derive(Debug, Clone, PartialEq, Eq, Default)]
pub struct Plot {
    pub id: String,
    pub plot_type: String,
    pub target: Option<String>,
}

/// One input that a script declares.
#[derive(Debug, Clone, PartialEq, Eq, Default)]
pub struct PineInput {
    pub name: String,
    pub inline: String,
    /// The name of the parameter that sets the input.
    pub id: String,
    /// The value that the input has where none is given.
    pub defval: Value,
    pub is_hidden: bool,
    /// Whether the value is a placeholder.
    pub is_fake: bool,
    pub optional: bool,
    pub options: Vec<String>,
    pub tooltip: Option<String>,
    /// The tag of the value's type.
    pub input_type: String,
}

impl PineInput {
    /// The parameter that the input contributes to a study: its default
    /// value, its placeholder flag and its type tag, each as it stands.
    pub open spec fn parameter(&self) -> IndicatorInputView {
        IndicatorInputView::IndicatorInput(
            InputValueView {
                v: self.defval@,
                f: ValueView::Bool(self.is_fake),
                t: ValueView::String(self.input_type@),
            },
        )
    }
}

/// The kinds of script that a study can run.
#[derive(Debug, Default, Clone, PartialEq, Eq, Copy)]
pub enum ScriptType {
    #[default]
    Script,
    IntervalScript,
    StrategyScript,
    VolumeBasicStudies,
    FixedBasicStudies,
    FixedVolumeByPrice,
    SessionVolumeByPrice,
    SessionRoughVolumeByPrice,
    SessionDetailedVolumeByPrice,
    VisibleVolumeByPrice,
}

impl ScriptType {
    /// The name by which the remote service knows the kind of script.
    pub open spec fn text(self) -> Seq<char> {
        match self {
            ScriptType::Script => "Script@tv-scripting-101!"@,
            ScriptType::IntervalScript => "Internal@tv-scripting-101!"@,
            ScriptType::StrategyScript => "StrategyScript@tv-scripting-101!"@,
            ScriptType::VolumeBasicStudies => "Volume@tv-basicstudies-144"@,
            ScriptType::FixedBasicStudies => "VbPFixed@tv-basicstudies-139!"@,
            ScriptType::FixedVolumeByPrice => "VbPFixed@tv-volumebyprice-53!"@,
            ScriptType::SessionVolumeByPrice => "VbPSessions@tv-volumebyprice-53"@,
            ScriptType::SessionRoughVolumeByPrice => "VbPSessionsRough@tv-volumebyprice-53!"@,
            ScriptType::SessionDetailedVolumeByPrice => "VbPSessionsDetailed@tv-volumebyprice-53!"@,
            ScriptType::VisibleVolumeByPrice => "VbPVisible@tv-volumebyprice-53"@,
        }
    }

    /// The name by which the remote service knows the kind of script.
    pub fn to_string(&self) -> (s: String)
        ensures
            s@ == self.text(),
    {
        match self {
            ScriptType::Script => "Script@tv-scripting-101!".to_owned(),
            ScriptType::IntervalScript => "Internal@tv-scripting-101!".to_owned(),
            ScriptType::StrategyScript => "StrategyScript@tv-scripting-101!".to_owned(),
            ScriptType::VolumeBasicStudies => "Volume@tv-basicstudies-144".to_owned(),
            ScriptType::FixedBasicStudies => "VbPFixed@tv-basicstudies-139!".to_owned(),
            ScriptType::FixedVolumeByPrice => "VbPFixed@tv-volumebyprice-53!".to_owned(),
            ScriptType::SessionVolumeByPrice => "VbPSessions@tv-volumebyprice-53".to_owned(),
            ScriptType::SessionRoughVolumeByPrice => {
                "VbPSessionsRough@tv-volumebyprice-53!".to_owned()
            },
            ScriptType::SessionDetailedVolumeByPrice => {
                "VbPSessionsDetailed@tv-volumebyprice-53!".to_owned()
            },
            ScriptType::VisibleVolumeByPrice => "VbPVisible@tv-volumebyprice-53".to_owned(),
        }
    }
}

/// A custom indicator: the script, its version and kind, and what the remote
/// service tells about it.
#[derive(Debug, Clone, PartialEq, Eq)]
pub struct PineIndicator {
    pub script_id: String,
    pub script_version: String,
    pub script_type: ScriptType,
    pub metadata: PineMetadata,
}

/// Collects what is needed to ask the remote service about a script.
pub struct PineIndicatorBuilder {
    user: Option<UserCookies>,
}

impl PineIndicatorBuilder {
    /// The user on whose behalf the remote service is asked, if one was given.
    pub closed spec fn cookies(&self) -> Option<UserCookies> {
        self.user
    }

    /// Asks on behalf of this user from now on.
    pub fn user(&mut self, user: UserCookies) -> (builder: &mut Self)
        ensures
            builder.cookies() == Some(user),
            *final(self) == *final(builder),
    {
        self.user = Some(user);
        self
    }

    /// The user on whose behalf the remote service is asked, if one was given.
    pub fn signed_in(&self) -> (user: Option<&UserCookies>)
        ensures
            match user {
                Some(cookies) => self.cookies() == Some(*cookies),
                None => self.cookies() is None,
            },
    {
        self.user.as_ref()
    }

    /// The indicator for a script, once the remote service has told about it.
    pub fn indicator(
        &self,
        script_id: &str,
        script_version: &str,
        script_type: ScriptType,
        metadata: PineMetadata,
    ) -> (indicator: PineIndicator)
        ensures
            indicator.script_id@ == script_id@,
            indicator.script_version@ == script_version@,
            indicator.script_type == script_type,
            indicator.metadata == metadata,
    {
        PineIndicator {
            script_id: script_id.to_owned(),
            script_version: script_version.to_owned(),
            script_type,
            metadata,
        }
    }
}

/// Whether a parameter name is one of the three that a study always sets
/// itself: the template, the script and the script's version.
pub open spec fn is_reserved(name: Seq<char>) -> bool {
    name == "text"@ || name == "pineId"@ || name == "pineVersion"@
}

/// The parameters that every study has: the template, the script and the
/// script's version, each under its reserved name.
pub open spec fn reserved_inputs(
    template: Seq<char>,
    script_id: Seq<char>,
    script_version: Seq<char>,
) -> Map<Seq<char>, IndicatorInputView> {
    Map::empty().insert("text"@, IndicatorInputView::String(template)).insert(
        "pineId"@,
        IndicatorInputView::String(script_id),
    ).insert("pineVersion"@, IndicatorInputView::String(script_version))
}

/// The parameters of a study of a script: the reserved ones, and for every
/// declared input whose name is not reserved the parameter it contributes.
/// Where two inputs have the same name, the later one counts.
pub open spec fn study_inputs(
    template: Seq<char>,
    script_id: Seq<char>,
    script_version: Seq<char>,
    inputs: Seq<PineInput>,
) -> Map<Seq<char>, IndicatorInputView>
    decreases inputs.len(),
{
    if inputs.len() == 0 {
        reserved_inputs(template, script_id, script_version)
    } else {
        let earlier = study_inputs(template, script_id, script_version, inputs.drop_last());
        let input = inputs.last();
        if is_reserved(input.id@) {
            earlier
        } else {
            earlier.insert(input.id@, input.parameter())
        }
    }
}

/// The number of declared inputs whose name is not reserved.
pub open spec fn declared_count(inputs: Seq<PineInput>) -> nat
    decreases inputs.len(),
{
    if inputs.len() == 0 {
        0
    } else if is_reserved(inputs.last().id@) {
        declared_count(inputs.drop_last())
    } else {
        declared_count(inputs.drop_last()) + 1
    }
}

/// Whether no name that is not reserved is declared twice.
pub open spec fn declared_once(inputs: Seq<PineInput>) -> bool {
    forall|i: int, j: int|
        0 <= i < j < inputs.len() && !is_reserved(inputs[i].id@) ==> (#[trigger] inputs[i]).id@ != (
        #[trigger] inputs[j]).id@
}

/// The three reserved names differ from one another.
pub proof fn lemma_reserved_names_differ()
    ensures
        "text"@ != "pineId"@,
        "text"@ != "pineVersion"@,
        "pineId"@ != "pineVersion"@,
{
    reveal_strlit("text");
    reveal_strlit("pineId");
    reveal_strlit("pineVersion");
    assert("text"@.len() == 4);
    assert("pineId"@.len() == 6);
    assert("pineVersion"@.len() == 11);
}

/// Whatever inputs a script declares, a study's template, script and version
/// are those of the indicator: an input declared under a reserved name is
/// never used.
pub proof fn lemma_reserved_inputs_win(
    template: Seq<char>,
    script_id: Seq<char>,
    script_version: Seq<char>,
    inputs: Seq<PineInput>,
)
    ensures
        study_inputs(template, script_id, script_version, inputs).contains_pair(
            "text"@,
            IndicatorInputView::String(template),
        ),
        study_inputs(template, script_id, script_version, inputs).contains_pair(
            "pineId"@,
            IndicatorInputView::String(script_id),
        ),
        study_inputs(template, script_id, script_version, inputs).contains_pair(
            "pineVersion"@,
            IndicatorInputView::String(script_version),
        ),
    decreases inputs.len(),
{
    lemma_reserved_names_differ();
    if inputs.len() > 0 {
        lemma_reserved_inputs_win(template, script_id, script_version, inputs.drop_last());
    }
}

/// A study has a parameter of a name exactly if the name is reserved or an
/// input is declared under it.
pub proof fn lemma_study_input_names(
    template: Seq<char>,
    script_id: Seq<char>,
    script_version: Seq<char>,
    inputs: Seq<PineInput>,
    name: Seq<char>,
)
    ensures
        study_inputs(template, script_id, script_version, inputs).contains_key(name) <==> (
        is_reserved(name) || exists|i: int|
            0 <= i < inputs.len() && (#[trigger] inputs[i]).id@ == name),
    decreases inputs.len(),
{
    if inputs.len() > 0 {
        let earlier = inputs.drop_last();
        lemma_study_input_names(template, script_id, script_version, earlier, name);
        if exists|i: int| 0 <= i < earlier.len() && (#[trigger] earlier[i]).id@ == name {
            let i = choose|i: int| 0 <= i < earlier.len() && (#[trigger] earlier[i]).id@ == name;
            assert(inputs[i].id@ == name);
        }
        if exists|i: int| 0 <= i < inputs.len() && (#[trigger] inputs[i]).id@ == name {
            let i = choose|i: int| 0 <= i < inputs.len() && (#[trigger] inputs[i]).id@ == name;
            if i < inputs.len() - 1 {
                assert(earlier[i].id@ == name);
            }
        }
        if inputs.last().id@ == name {
            assert(inputs[inputs.len() - 1].id@ == name);
        }
    }
}

/// A declared input whose name is not reserved, and under whose name no later
/// input is declared, gives the study its parameter: the input's default
/// value, placeholder flag and type tag.
pub proof fn lemma_declared_input_kept(
    template: Seq<char>,
    script_id: Seq<char>,
    script_version: Seq<char>,
    inputs: Seq<PineInput>,
    i: int,
)
    requires
        0 <= i < inputs.len(),
        !is_reserved(inputs[i].id@),
        forall|j: int| i < j < inputs.len() ==> (#[trigger] inputs[j]).id@ != inputs[i].id@,
    ensures
        study_inputs(template, script_id, script_version, inputs).contains_pair(
            inputs[i].id@,
            inputs[i].parameter(),
        ),
    decreases inputs.len(),
{
    if i < inputs.len() - 1 {
        let earlier = inputs.drop_last();
        assert(earlier[i] == inputs[i]);
        assert forall|j: int| i < j < earlier.len() implies (#[trigger] earlier[j]).id@
            != earlier[i].id@ by {
            assert(inputs[j].id@ != inputs[i].id@);
        }
        lemma_declared_input_kept(template, script_id, script_version, earlier, i);
        assert(inputs[inputs.len() - 1].id@ != inputs[i].id@);
    }
}

/// Where no name that is not reserved is declared twice, a study has three
/// parameters more than the script declares inputs under names that are not
/// reserved.
pub proof fn lemma_study_input_count(
    template: Seq<char>,
    script_id: Seq<char>,
    script_version: Seq<char>,
    inputs: Seq<PineInput>,
)
    requires
        declared_once(inputs),
    ensures
        study_inputs(template, script_id, script_version, inputs).dom().finite(),
        study_inputs(template, script_id, script_version, inputs).len() == 3 + declared_count(
            inputs,
        ),
    decreases inputs.len(),
{
    lemma_reserved_names_differ();
    if inputs.len() > 0 {
        let earlier = inputs.drop_last();
        let input = inputs.last();
        assert(declared_once(earlier)) by {
            assert forall|i: int, j: int|
                0 <= i < j < earlier.len() && !is_reserved(
                    earlier[i].id@,
                ) implies (#[trigger] earlier[i]).id@ != (#[trigger] earlier[j]).id@ by {
                assert(inputs[i].id@ != inputs[j].id@);
            }
        }
        lemma_study_input_count(template, script_id, script_version, earlier);
        if !is_reserved(input.id@) {
            lemma_study_input_names(template, script_id, script_version, earlier, input.id@);
            if exists|i: int| 0 <= i < earlier.len() && (#[trigger] earlier[i]).id@ == input.id@ {
                let i = choose|i: int|
                    0 <= i < earlier.len() && (#[trigger] earlier[i]).id@ == input.id@;
                assert(inputs[i].id@ != inputs[inputs.len() - 1].id@);
            }
        }
    }
}

/// Whether a parameter name is one of the three that a study always sets
/// itself.
pub fn is_reserved_name(name: &String) -> (reserved: bool)
    ensures
        reserved == is_reserved(name@),
{
    let text = "text".to_owned();
    let pine_id = "pineId".to_owned();
    let pine_version = "pineVersion".to_owned();
    *name == text || *name == pine_id || *name == pine_version
}

impl PineIndicator {
    /// Starts collecting what is needed to ask about a script.
    pub fn build() -> (builder: PineIndicatorBuilder)
        ensures
            builder.cookies() is None,
    {
        PineIndicatorBuilder { user: None }
    }

    /// The parameters with which a study of this indicator is requested.
    pub fn to_study_inputs(&self) -> (inputs: StudyInputs)
        ensures
            inputs@ == study_inputs(
                self.metadata.il_template@,
                self.script_id@,
                self.script_version@,
                self.metadata.data.inputs@,
            ),
    {
        let mut inputs = StudyInputs::new();
        inputs.insert("text".to_owned(), IndicatorInput::String(self.metadata.il_template.clone()));
        inputs.insert("pineId".to_owned(), IndicatorInput::String(self.script_id.clone()));
        inputs.insert(
            "pineVersion".to_owned(),
            IndicatorInput::String(self.script_version.clone()),
        );
        let declared = &self.metadata.data.inputs;
        let mut i: usize = 0;
        assert(declared@.take(0) =~= Seq::<PineInput>::empty());
        while i < declared.len()
            invariant
                i <= declared@.len(),
                declared == &self.metadata.data.inputs,
                inputs@ == study_inputs(
                    self.metadata.il_template@,
                    self.script_id@,
                    self.script_version@,
                    declared@.take(i as int),
                ),
            decreases declared@.len() - i,
        {
            let input = &declared[i];
            proof {
                assert(declared@.take(i + 1).drop_last() =~= declared@.take(i as int));
                assert(declared@.take(i + 1).last() == declared@[i as int]);
            }
            if !is_reserved_name(&input.id) {
                inputs.insert(
                    input.id.clone(),
                    IndicatorInput::IndicatorInput(
                        InputValue {
                            v: input.defval.clone(),
                            f: Value::Bool(input.is_fake),
                            t: Value::String(input.input_type.clone()),
                        },
                    ),
                );
            }
            i += 1;
        }
        assert(declared@.take(i as int) =~= declared@);
        inputs
    }
}

} // verus!
