//! A scripted provider for exercising the turn loop: each stream request
//! takes the next pre-scripted list of events; once the scripts run out a
//! stream holds only `MessageStop`, which ends a turn cleanly.

use vstd::prelude::*;
use vstd::string::*;

use crate::api::provider_types::{ProviderCapabilities, StreamEvent, SystemPromptStyle};
use crate::api::providers::ProviderId;

verus! {

/// A provider that replays scripted streams.
pub struct MockProvider {
    id: ProviderId,
    scripts: Vec<Vec<StreamEvent>>,
}

impl MockProvider {
    /// The scripts not replayed yet, in order.
    pub closed spec fn pending(&self) -> Seq<Vec<StreamEvent>> {
        self.scripts@
    }

    /// A provider with one script.
    pub fn new(single_script: Vec<StreamEvent>) -> (r: MockProvider)
        ensures
            r.pending() == seq![single_script],
    {
        Self::with_scripts(vec![single_script])
    }

    /// A provider with these scripts, replayed in order.
    pub fn with_scripts(scripts: Vec<Vec<StreamEvent>>) -> (r: MockProvider)
        ensures
            r.pending() == scripts@,
    {
        MockProvider { id: ProviderId::new("mock"), scripts }
    }

    /// The provider's id, `mock`.
    pub fn id(&self) -> (r: &ProviderId)
        ensures
            r@ == "mock"@,
    {
        proof {
            use_type_invariant(self);
        }
        &self.id
    }

    /// The provider's display name.
    pub fn name(&self) -> (r: &'static str)
        ensures
            r@ == "Mock"@,
    {
        "Mock"
    }

    /// The events of the next stream: the next script, or only
    /// `MessageStop` once the scripts are used up.
    pub fn next_stream(&mut self) -> (r: Vec<StreamEvent>)
        ensures
            old(self).pending().len() > 0 ==> r == old(self).pending()[0] && final(self).pending()
                == old(self).pending().drop_first(),
            old(self).pending().len() == 0 ==> r@.len() == 1 && r@[0] is MessageStop
                && final(self).pending().len() == 0,
    {
        proof {
            use_type_invariant(&*self);
        }
        if self.scripts.len() == 0 {
            vec![StreamEvent::MessageStop]
        } else {
            let mut scripts = Vec::new();
            std::mem::swap(&mut scripts, &mut self.scripts);
            let first = scripts.remove(0);
            self.scripts = scripts;
            first
        }
    }

    /// What the mock supports: streaming and tool calls only.
    pub fn capabilities(&self) -> (r: ProviderCapabilities)
        ensures
            r == (ProviderCapabilities {
                streaming: true,
                tool_calling: true,
                thinking: false,
                image_input: false,
                pdf_input: false,
                audio_input: false,
                video_input: false,
                caching: false,
                structured_output: false,
                system_prompt_style: SystemPromptStyle::TopLevel,
            }),
    {
        ProviderCapabilities {
            streaming: true,
            tool_calling: true,
            thinking: false,
            image_input: false,
            pdf_input: false,
            audio_input: false,
            video_input: false,
            caching: false,
            structured_output: false,
            system_prompt_style: SystemPromptStyle::TopLevel,
        }
    }

    #[verifier::type_invariant]
    closed spec fn inv(&self) -> bool {
        self.id@ == "mock"@
    }
}

} // verus!
