use vstd::prelude::*;

use crate::pubkey::Pubkey;

verus! {

/// The tag in the address of the configuration record: the text `marketplace`.
pub const MARKETPLACE_SEED: [u8; 11] = [109, 97, 114, 107, 101, 116, 112, 108, 97, 99, 101];

/// The tag in the address of a model: the text `model`.
pub const MODEL_SEED: [u8; 5] = [109, 111, 100, 101, 108];

/// The tag in the address of an access right: the text `access`.
pub const ACCESS_SEED: [u8; 6] = [97, 99, 99, 101, 115, 115];

/// The tag in the address of a usage record: the text `usage`.
pub const USAGE_SEED: [u8; 5] = [117, 115, 97, 103, 101];

/// What the configuration record's address is derived from: its tag alone.
pub open spec fn marketplace_seeds() -> Seq<Seq<u8>> {
    seq![MARKETPLACE_SEED@]
}

/// What a model's address is derived from: the tag, the creator, and the
/// model's number as eight bytes, lowest first.
pub open spec fn model_seeds(creator: Pubkey, model_id: u64) -> Seq<Seq<u8>> {
    seq![MODEL_SEED@, creator@, vstd::bytes::spec_u64_to_le_bytes(model_id)]
}

/// What an access right's address is derived from: the tag, the user, and
/// the model's address.
pub open spec fn access_seeds(user: Pubkey, model: Pubkey) -> Seq<Seq<u8>> {
    seq![ACCESS_SEED@, user@, model@]
}

/// What a usage record's address is derived from: the tag, the user, the
/// model's address, and the fingerprint in UTF-8.
pub open spec fn usage_seeds(user: Pubkey, model: Pubkey, inference_hash: Seq<char>) -> Seq<
    Seq<u8>,
> {
    seq![USAGE_SEED@, user@, model@, vstd::utf8::encode_utf8(inference_hash)]
}

/// The seeds held by a vector of byte vectors.
pub open spec fn seeds_view(seeds: Vec<Vec<u8>>) -> Seq<Seq<u8>> {
    Seq::new(seeds@.len(), |i: int| seeds@[i]@)
}

/// A derived address and its bump, by the address's bytes.
pub open spec fn derived_view(derived: Option<(Pubkey, u8)>) -> Option<(Seq<u8>, u8)> {
    match derived {
        Some((address, bump)) => Some((address@, bump)),
        None => None,
    }
}

/// Most seeds that an address can be derived from, the bump not counted.
pub const MAX_SEEDS: usize = 15;

/// Most bytes that one seed can hold.
pub const MAX_SEED_LEN: usize = 32;

/// Whether the seeds are too many or one of them is too long for any
/// address to be derived from them.
pub open spec fn seeds_out_of_bounds(seeds: Seq<Seq<u8>>) -> bool {
    seeds.len() > MAX_SEEDS || exists|i: int|
        0 <= i < seeds.len() && (#[trigger] seeds[i]).len() > MAX_SEED_LEN
}

/// The program-derived address that `seeds` give under the program
/// `program_id`, with its bump, or nothing where the seeds derive none.
pub uninterp spec fn program_address(seeds: Seq<Seq<u8>>, program_id: Seq<u8>) -> Option<
    (Seq<u8>, u8),
>;

/// Calls `Pubkey::try_find_program_address` of `anchor_lang`, which hashes
/// the seeds, a bump and the program's identity, and searches the bump from
/// 255 down for the first hash that is no point of the curve. The contract
/// claims that the result is a function of the seeds and the program's
/// bytes, and that there is none for more than 15 seeds or a seed of more
/// than 32 bytes, which that function turns down before it hashes.
#[verifier::external_body]
fn find_program_address(seeds: &Vec<Vec<u8>>, program_id: &Pubkey) -> (derived: Option<
    (Pubkey, u8),
>)
    ensures
        derived_view(derived) == program_address(seeds_view(*seeds), program_id@),
        seeds_out_of_bounds(seeds_view(*seeds)) ==> derived is None,
{
    let seeds: Vec<&[u8]> = seeds.iter().map(|seed| seed.as_slice()).collect();
    let program_id = anchor_lang::prelude::Pubkey::new_from_array(program_id.to_bytes());
    anchor_lang::prelude::Pubkey::try_find_program_address(&seeds, &program_id).map(
        |(address, bump)| (Pubkey::new_from_array(address.to_bytes()), bump),
    )
}

/// The address of the marketplace's configuration record under the program
/// `program_id`.
pub fn marketplace_address(program_id: &Pubkey) -> (derived: Option<(Pubkey, u8)>)
    ensures
        derived_view(derived) == program_address(marketplace_seeds(), program_id@),
{
    let mut seeds: Vec<Vec<u8>> = Vec::new();
    seeds.push(vstd::slice::slice_to_vec(MARKETPLACE_SEED.as_slice()));
    assert(seeds_view(seeds) =~= marketplace_seeds());
    find_program_address(&seeds, program_id)
}

/// The address of the model that `creator` registered as number `model_id`.
pub fn model_address(program_id: &Pubkey, creator: &Pubkey, model_id: u64) -> (derived: Option<
    (Pubkey, u8),
>)
    ensures
        derived_view(derived) == program_address(model_seeds(*creator, model_id), program_id@),
{
    let mut seeds: Vec<Vec<u8>> = Vec::new();
    seeds.push(vstd::slice::slice_to_vec(MODEL_SEED.as_slice()));
    seeds.push(creator.to_vec());
    seeds.push(vstd::bytes::u64_to_le_bytes(model_id));
    assert(seeds_view(seeds) =~= model_seeds(*creator, model_id));
    find_program_address(&seeds, program_id)
}

/// The address of the access right of `user` to the model stored under
/// `model`.
pub fn access_address(program_id: &Pubkey, user: &Pubkey, model: &Pubkey) -> (derived: Option<
    (Pubkey, u8),
>)
    ensures
        derived_view(derived) == program_address(access_seeds(*user, *model), program_id@),
{
    let mut seeds: Vec<Vec<u8>> = Vec::new();
    seeds.push(vstd::slice::slice_to_vec(ACCESS_SEED.as_slice()));
    seeds.push(user.to_vec());
    seeds.push(model.to_vec());
    assert(seeds_view(seeds) =~= access_seeds(*user, *model));
    find_program_address(&seeds, program_id)
}

/// The address of the usage record of `user` on the model stored under
/// `model` with the fingerprint `inference_hash`.
pub fn usage_address(
    program_id: &Pubkey,
    user: &Pubkey,
    model: &Pubkey,
    inference_hash: &str,
) -> (derived: Option<(Pubkey, u8)>)
    ensures
        derived_view(derived) == program_address(
            usage_seeds(*user, *model, inference_hash@),
            program_id@,
        ),
        vstd::utf8::encode_utf8(inference_hash@).len() > MAX_SEED_LEN ==> derived is None,
{
    let mut seeds: Vec<Vec<u8>> = Vec::new();
    seeds.push(vstd::slice::slice_to_vec(USAGE_SEED.as_slice()));
    seeds.push(user.to_vec());
    seeds.push(model.to_vec());
    seeds.push(inference_hash.as_bytes_vec());
    assert(seeds_view(seeds) =~= usage_seeds(*user, *model, inference_hash@));
    assert(seeds_view(seeds)[3] == vstd::utf8::encode_utf8(inference_hash@));
    find_program_address(&seeds, program_id)
}

/// Two models have the same seeds only if they are the same creator's and
/// have the same number.
pub proof fn lemma_model_seeds_tell_models_apart(
    creator: Pubkey,
    model_id: u64,
    other_creator: Pubkey,
    other_id: u64,
)
    ensures
        model_seeds(creator, model_id) == model_seeds(other_creator, other_id) <==> creator
            == other_creator && model_id == other_id,
{
    let seeds = model_seeds(creator, model_id);
    let other = model_seeds(other_creator, other_id);
    if seeds == other {
        assert(seeds[1] == other[1]);
        assert(seeds[2] == other[2]);
        Pubkey::lemma_view_determines(creator, other_creator);
        vstd::bytes::lemma_auto_spec_u64_to_from_le_bytes();
    }
}

/// Two access rights have the same seeds only if they are the same user's
/// and to the same model.
pub proof fn lemma_access_seeds_tell_rights_apart(
    user: Pubkey,
    model: Pubkey,
    other_user: Pubkey,
    other_model: Pubkey,
)
    ensures
        access_seeds(user, model) == access_seeds(other_user, other_model) <==> user == other_user
            && model == other_model,
{
    let seeds = access_seeds(user, model);
    let other = access_seeds(other_user, other_model);
    if seeds == other {
        assert(seeds[1] == other[1]);
        assert(seeds[2] == other[2]);
        Pubkey::lemma_view_determines(user, other_user);
        Pubkey::lemma_view_determines(model, other_model);
    }
}

/// Two usage records have the same seeds only if they are the same user's,
/// on the same model and under the same fingerprint.
pub proof fn lemma_usage_seeds_tell_usages_apart(
    user: Pubkey,
    model: Pubkey,
    inference_hash: Seq<char>,
    other_user: Pubkey,
    other_model: Pubkey,
    other_hash: Seq<char>,
)
    ensures
        usage_seeds(user, model, inference_hash) == usage_seeds(other_user, other_model, other_hash)
            <==> user == other_user && model == other_model && inference_hash == other_hash,
{
    let seeds = usage_seeds(user, model, inference_hash);
    let other = usage_seeds(other_user, other_model, other_hash);
    if seeds == other {
        assert(seeds[1] == other[1]);
        assert(seeds[2] == other[2]);
        assert(seeds[3] == other[3]);
        Pubkey::lemma_view_determines(user, other_user);
        Pubkey::lemma_view_determines(model, other_model);
        vstd::utf8::encode_utf8_decode_utf8(inference_hash);
        vstd::utf8::encode_utf8_decode_utf8(other_hash);
    }
}

/// Records of different kinds never have the same seeds.
pub proof fn lemma_seeds_tell_kinds_apart(
    creator: Pubkey,
    model_id: u64,
    user: Pubkey,
    model: Pubkey,
    inference_hash: Seq<char>,
)
    ensures
        marketplace_seeds() != model_seeds(creator, model_id),
        marketplace_seeds() != access_seeds(user, model),
        marketplace_seeds() != usage_seeds(user, model, inference_hash),
        model_seeds(creator, model_id) != access_seeds(user, model),
        model_seeds(creator, model_id) != usage_seeds(user, model, inference_hash),
        access_seeds(user, model) != usage_seeds(user, model, inference_hash),
{
    assert(marketplace_seeds().len() == 1);
    assert(model_seeds(creator, model_id).len() == 3);
    assert(access_seeds(user, model).len() == 3);
    assert(usage_seeds(user, model, inference_hash).len() == 4);
    assert(model_seeds(creator, model_id)[0].len() == 5);
    assert(access_seeds(user, model)[0].len() == 6);
}

} // verus!
