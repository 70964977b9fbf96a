use vstd::prelude::*;
use crate::calls::{Plan, ServiceCall};
use crate::errors::ForgeError;
use crate::events::Event;
use crate::identifier::{AccountMeta, Handle, Instruction, Pubkey};
use solana_address::Address;
use spl_token_metadata_interface::instruction::update_field;
use spl_token_metadata_interface::state::Field;

verus! {

/// The handles a metadata update works with; the mint account holds its
/// own metadata.
#[derive(Debug, Clone, Copy)]
pub struct UpdateTokenMetadata {
    pub authority: Handle,
    pub metadata: Handle,
    /// The update authority that the metadata record holds; none once the
    /// metadata was made immutable.
    pub update_authority: Option<Pubkey>,
    pub token_program: Handle,
}

/// The caller signs and is the update authority the metadata records.
pub open spec fn metadata_update_authorized(ctx: UpdateTokenMetadata) -> bool {
    ctx.authority.is_signer && ctx.update_authority == Some(ctx.authority.key)
}

/// The identifier of the Token-2022 program, the service that keeps the
/// metadata of a Token-2022 mint in the mint account itself.
pub const TOKEN_2022_PROGRAM_ID: [u8; 32] = [
    6, 221, 246, 225, 238, 117, 143, 222, 24, 66, 93, 188, 228, 108, 205, 218, 182, 26, 252, 77, 131,
    185, 13, 39, 254, 189, 249, 40, 216, 161, 139, 252,
];

/// The Token-2022 program, as an identifier.
pub open spec fn token_2022_program() -> Pubkey {
    Pubkey { bytes: TOKEN_2022_PROGRAM_ID }
}

/// A mutable field of an asset's metadata.
#[derive(Debug, Clone, Copy, PartialEq, Eq, Structural)]
pub enum MetadataField {
    Name,
    Symbol,
    Uri,
}

/// The encoded payload of a field-update call setting `field` to `value`.
pub uninterp spec fn update_field_data(field: MetadataField, value: Seq<char>) -> Seq<u8>;

/// The account list of a field-update call: the metadata account, writable,
/// then the update authority, signing.
pub open spec fn update_field_accounts(metadata: Pubkey, authority: Pubkey) -> Seq<AccountMeta> {
    seq![
        AccountMeta { pubkey: metadata, is_signer: false, is_writable: true },
        AccountMeta { pubkey: authority, is_signer: true, is_writable: false },
    ]
}

/// A value short enough for the service's encoding, which writes the
/// value's byte length as a 32-bit integer; a character takes at most four
/// bytes.
pub open spec fn encodable_value(value: Seq<char>) -> bool {
    value.len() <= 0x3fff_ffff
}

pub open spec fn is_update_field_ix(
    ix: Instruction,
    program_id: Pubkey,
    metadata: Pubkey,
    authority: Pubkey,
    field: MetadataField,
    value: Seq<char>,
) -> bool {
    &&& ix.program_id == program_id
    &&& ix.accounts@ == update_field_accounts(metadata, authority)
    &&& ix.data@ == update_field_data(field, value)
}

/// Relies on spl_token_metadata_interface::instruction::update_field, which
/// targets `program_id`, lists the metadata account (writable) and the update
/// authority (signer), and packs the field and value as its payload. The
/// identifiers cross into and out of the service's `Address` type by their
/// 32 bytes. The packing panics on a value of more than `u32::MAX` bytes.
#[verifier::external_body]
fn build_update_field(
    program_id: &Pubkey,
    metadata: &Pubkey,
    authority: &Pubkey,
    field: MetadataField,
    value: String,
) -> (r: Instruction)
    requires
        encodable_value(value@),
    ensures
        r.program_id == *program_id,
        r.accounts@ == update_field_accounts(*metadata, *authority),
        r.data@ == update_field_data(field, value@),
{
    let f = match field {
        MetadataField::Name => Field::Name,
        MetadataField::Symbol => Field::Symbol,
        MetadataField::Uri => Field::Uri,
    };
    let ix = update_field(&Address::from(program_id.bytes), &Address::from(metadata.bytes),
        &Address::from(authority.bytes), f, value);
    let accounts = ix.accounts.into_iter().map(|a| AccountMeta {
        pubkey: Pubkey { bytes: a.pubkey.to_bytes() }, is_signer: a.is_signer, is_writable: a.is_writable,
    }).collect();
    Instruction { program_id: Pubkey { bytes: ix.program_id.to_bytes() }, accounts, data: ix.data }
}

/// The call descriptor that sets one metadata field, signed by the caller;
/// it always goes to the Token-2022 program.
pub fn update_metadata_field(ctx: &UpdateTokenMetadata, field: MetadataField, value: String) -> (r:
    Instruction)
    requires
        encodable_value(value@),
    ensures
        is_update_field_ix(
            r,
            token_2022_program(),
            ctx.metadata.key,
            ctx.authority.key,
            field,
            value@,
        ),
{
    let program_id = Pubkey { bytes: TOKEN_2022_PROGRAM_ID };
    build_update_field(&program_id, &ctx.metadata.key, &ctx.authority.key, field, value)
}

/// The calls of a metadata update are the three field updates, name, symbol
/// and uri, in that order, each sent to the Token-2022 program.
pub open spec fn is_metadata_update_calls(
    calls: Seq<ServiceCall>,
    ctx: UpdateTokenMetadata,
    name: Seq<char>,
    symbol: Seq<char>,
    uri: Seq<char>,
) -> bool {
    let p = token_2022_program();
    let m = ctx.metadata.key;
    let a = ctx.authority.key;
    &&& calls.len() == 3
    &&& calls[0] is Invoke && is_update_field_ix(calls[0]->Invoke_0, p, m, a, MetadataField::Name, name)
    &&& calls[1] is Invoke && is_update_field_ix(calls[1]->Invoke_0, p, m, a, MetadataField::Symbol, symbol)
    &&& calls[2] is Invoke && is_update_field_ix(calls[2]->Invoke_0, p, m, a, MetadataField::Uri, uri)
}

/// Plans a metadata update: the caller must sign and be the recorded update
/// authority.
pub fn handle_update_token_metadata(
    ctx: &UpdateTokenMetadata,
    name: String,
    symbol: String,
    uri: String,
) -> (r: Result<Plan, ForgeError>)
    requires
        encodable_value(name@),
        encodable_value(symbol@),
        encodable_value(uri@),
    ensures
        !metadata_update_authorized(*ctx) ==> r == Err::<Plan, ForgeError>(ForgeError::Unauthorized),
        metadata_update_authorized(*ctx) ==> r is Ok && is_metadata_update_calls(
            r->Ok_0.calls@,
            *ctx,
            name@,
            symbol@,
            uri@,
        ) && r->Ok_0.event == (Event::MetadataUpdated {
            mint: ctx.metadata.key,
            name: name,
            symbol: symbol,
            uri: uri,
        }),
{
    let authorized = match ctx.update_authority {
        Some(a) => ctx.authority.is_signer && a == ctx.authority.key,
        None => false,
    };
    if !authorized {
        return Err(ForgeError::Unauthorized);
    }
    let mut calls: Vec<ServiceCall> = Vec::new();
    calls.push(ServiceCall::Invoke(update_metadata_field(ctx, MetadataField::Name, name.clone())));
    calls.push(ServiceCall::Invoke(update_metadata_field(ctx, MetadataField::Symbol, symbol.clone())));
    calls.push(ServiceCall::Invoke(update_metadata_field(ctx, MetadataField::Uri, uri.clone())));
    let event = Event::MetadataUpdated { mint: ctx.metadata.key, name, symbol, uri };
    Ok(Plan { calls, event })
}

} // verus!
