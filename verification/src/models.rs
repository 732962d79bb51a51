//! The catalogue of models the service offers.

use vstd::prelude::*;

verus! {

/// A model the service can be asked for.
#[derive(Debug, Clone, Copy, PartialEq, Eq, Structural)]
pub enum Model {
    NearDeepSeekV31,
    NearGLM46,
    NearGptOss120b,
    NearQwen330BA3BInstruct2507,
    PhalaDeepSeekChatV30324,
    PhalaDeepSeekChatV31,
    PhalaDeepSeekR10528,
    PhalaGemma327bIt,
    PhalaGLM46,
    PhalaGptOss120b,
}

impl Model {
    /// The name under which the service knows this model.
    pub open spec fn name(self) -> Seq<char> {
        match self {
            Model::NearDeepSeekV31 => "near/DeepSeek-V3.1"@,
            Model::NearGLM46 => "near/GLM-4.6"@,
            Model::NearGptOss120b => "near/gpt-oss-120b"@,
            Model::NearQwen330BA3BInstruct2507 => "near/Qwen3-30B-A3B-Instruct-2507"@,
            Model::PhalaDeepSeekChatV30324 => "phala/deepseek-chat-v3-0324"@,
            Model::PhalaDeepSeekChatV31 => "phala/deepseek-chat-v3.1"@,
            Model::PhalaDeepSeekR10528 => "phala/deepseek-r1-0528"@,
            Model::PhalaGemma327bIt => "phala/gemma-3-27b-it"@,
            Model::PhalaGLM46 => "phala/glm-4.6"@,
            Model::PhalaGptOss120b => "phala/gpt-oss-120b"@,
        }
    }

    /// Returns the name under which the service knows this model: a text that
    /// depends on the variant alone and is never empty.
    pub fn as_str(&self) -> (name: &str)
        ensures
            name@ == self.name(),
            name@.len() > 0,
    {
        proof {
            lemma_name_nonempty(*self);
        }
        match self {
            Model::NearDeepSeekV31 => "near/DeepSeek-V3.1",
            Model::NearGLM46 => "near/GLM-4.6",
            Model::NearGptOss120b => "near/gpt-oss-120b",
            Model::NearQwen330BA3BInstruct2507 => "near/Qwen3-30B-A3B-Instruct-2507",
            Model::PhalaDeepSeekChatV30324 => "phala/deepseek-chat-v3-0324",
            Model::PhalaDeepSeekChatV31 => "phala/deepseek-chat-v3.1",
            Model::PhalaDeepSeekR10528 => "phala/deepseek-r1-0528",
            Model::PhalaGemma327bIt => "phala/gemma-3-27b-it",
            Model::PhalaGLM46 => "phala/glm-4.6",
            Model::PhalaGptOss120b => "phala/gpt-oss-120b",
        }
    }
}

/// The length and the first character of each name.
proof fn lemma_names_spelled_out()
    ensures
        Model::NearDeepSeekV31.name().len() == 18 && Model::NearDeepSeekV31.name()[0] == 'n',
        Model::NearGLM46.name().len() == 12 && Model::NearGLM46.name()[0] == 'n',
        Model::NearGptOss120b.name().len() == 17 && Model::NearGptOss120b.name()[0] == 'n',
        Model::NearQwen330BA3BInstruct2507.name().len() == 32
            && Model::NearQwen330BA3BInstruct2507.name()[0] == 'n',
        Model::PhalaDeepSeekChatV30324.name().len() == 27
            && Model::PhalaDeepSeekChatV30324.name()[0] == 'p',
        Model::PhalaDeepSeekChatV31.name().len() == 24 && Model::PhalaDeepSeekChatV31.name()[0]
            == 'p',
        Model::PhalaDeepSeekR10528.name().len() == 22 && Model::PhalaDeepSeekR10528.name()[0]
            == 'p',
        Model::PhalaGemma327bIt.name().len() == 20 && Model::PhalaGemma327bIt.name()[0] == 'p',
        Model::PhalaGLM46.name().len() == 13 && Model::PhalaGLM46.name()[0] == 'p',
        Model::PhalaGptOss120b.name().len() == 18 && Model::PhalaGptOss120b.name()[0] == 'p',
{
    reveal_strlit("near/DeepSeek-V3.1");
    reveal_strlit("near/GLM-4.6");
    reveal_strlit("near/gpt-oss-120b");
    reveal_strlit("near/Qwen3-30B-A3B-Instruct-2507");
    reveal_strlit("phala/deepseek-chat-v3-0324");
    reveal_strlit("phala/deepseek-chat-v3.1");
    reveal_strlit("phala/deepseek-r1-0528");
    reveal_strlit("phala/gemma-3-27b-it");
    reveal_strlit("phala/glm-4.6");
    reveal_strlit("phala/gpt-oss-120b");
}

/// Every model has a name, and the name is not empty.
pub proof fn lemma_name_nonempty(model: Model)
    ensures
        model.name().len() > 0,
{
    lemma_names_spelled_out();
}

/// The catalogue is one to one: two models have the same name exactly when
/// they are the same model.
pub proof fn lemma_name_identifies_model(a: Model, b: Model)
    ensures
        a.name() == b.name() <==> a == b,
{
    lemma_names_spelled_out();
}

} // verus!
