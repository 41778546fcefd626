use vstd::prelude::*;
use vstd::string::*;

verus! {

/// The memo-extraction instruction text: the memo verbatim between the
/// fixed lead and the schema block, the genre history verbatim between
/// the guidance and the closing note.
pub open spec fn spec_memo_prompt(memo: Seq<char>, genres: Seq<char>) -> Seq<char> {
    "Take the following activity memo and return _only_ the schema with the values filled in:\n\n'"@
        + memo
        + "'\n\nSchema: {\"name\": string, \"emoji\": string, \"duration\": integer}\n\nTake care to use reasonable defaults for, e.g., duration, if needed.\nAn activity can have multiple emojis associated with it--be thorough in your selection!\nBe mindful of the emojis you pick! It should be general and allow for generous overlap with other genres/activities--to this end, here's a recent history of chosen genres (one emoji == one genre):\n\n"@
        + genres
        + "\n\nKeep things consistent!\n\nAs a final note: _Nothing other than JSON should be in your response_--don't wrap it in any markdown formatting or anything"@
}

/// The weekly-report instruction text: the serialized memo batch
/// verbatim between the fixed lead and the tone guidance.
pub open spec fn spec_weekly_prompt(body: Seq<char>) -> Seq<char> {
    "Take the following activity memos and generate a friendly report recounting the user's activities over the past week:\n\n'"@
        + body
        + "'\n\nBe especially attentive to any latent needs or deficiencies, or abject successes or achievements. Also, be familiar--don't be professionally distant!"@
}

/// Build the memo-extraction instruction text.
pub fn build_memo_prompt(memo: &str, genres: &str) -> (p: String)
    ensures
        p@ == spec_memo_prompt(memo@, genres@),
{
    let mut p =
        "Take the following activity memo and return _only_ the schema with the values filled in:\n\n'".to_owned();
    p.append(memo);
    p.append(
        "'\n\nSchema: {\"name\": string, \"emoji\": string, \"duration\": integer}\n\nTake care to use reasonable defaults for, e.g., duration, if needed.\nAn activity can have multiple emojis associated with it--be thorough in your selection!\nBe mindful of the emojis you pick! It should be general and allow for generous overlap with other genres/activities--to this end, here's a recent history of chosen genres (one emoji == one genre):\n\n",
    );
    p.append(genres);
    p.append(
        "\n\nKeep things consistent!\n\nAs a final note: _Nothing other than JSON should be in your response_--don't wrap it in any markdown formatting or anything",
    );
    proof {
        assert(p@ =~= spec_memo_prompt(memo@, genres@));
    }
    p
}

/// Build the weekly-report instruction text around the serialized batch.
pub fn build_weekly_prompt(body: &str) -> (p: String)
    ensures
        p@ == spec_weekly_prompt(body@),
{
    let mut p =
        "Take the following activity memos and generate a friendly report recounting the user's activities over the past week:\n\n'".to_owned();
    p.append(body);
    p.append(
        "'\n\nBe especially attentive to any latent needs or deficiencies, or abject successes or achievements. Also, be familiar--don't be professionally distant!",
    );
    proof {
        assert(p@ =~= spec_weekly_prompt(body@));
    }
    p
}

} // verus!
