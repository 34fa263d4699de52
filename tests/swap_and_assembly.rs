use dlmm_gateway::assembly::{
    build_swap_instruction, index_to_le_bytes, memo_program_id, swap_account_metas,
    AssemblyError, BinArrayPair, PoolAccounts,
};
use dlmm_gateway::key::Key;
use dlmm_gateway::swap::{resolve_mode, SwapMode};
use base64::Engine;
use solana_sdk::pubkey::Pubkey;
use std::str::FromStr;

fn key(n: u8) -> Key {
    Key::new([n; 32])
}

fn pubkey(k: &Key) -> Pubkey {
    Pubkey::new_from_array(k.bytes)
}

fn pool(hooked: bool) -> PoolAccounts {
    PoolAccounts {
        key: key(1),
        mint_x: key(2),
        mint_y: key(3),
        token_vault_x: key(4),
        token_vault_y: key(5),
        token_program_x: key(6),
        token_program_y: key(7),
        hook: if hooked { key(8) } else { key(1) },
        event_authority: key(9),
        program_id: key(10),
        bin_array_index: 7,
    }
}

fn bins() -> BinArrayPair {
    BinArrayPair { lower: key(11), upper: key(12) }
}

#[test]
fn mode_table_rows() {
    let x = key(2);
    let y = key(3);
    assert_eq!(resolve_mode(true, &x, &x), SwapMode::ExactIn);
    assert_eq!(resolve_mode(true, &y, &x), SwapMode::ExactOut);
    assert_eq!(resolve_mode(false, &x, &x), SwapMode::ExactOut);
    assert_eq!(resolve_mode(false, &y, &x), SwapMode::ExactIn);
}

#[test]
fn memo_program_matches_its_text() {
    let memo = Pubkey::from_str("MemoSq4gqABAXKb96qnH8TysNcWxMyWCqXgDLGmfcHr").unwrap();
    assert_eq!(memo_program_id().bytes, memo.to_bytes());
}

#[test]
fn index_bytes_are_little_endian() {
    assert_eq!(index_to_le_bytes(7), vec![7, 0, 0, 0]);
    assert_eq!(index_to_le_bytes(0x01020304), vec![4, 3, 2, 1]);
    assert_eq!(index_to_le_bytes(-1), vec![255, 255, 255, 255]);
}

#[test]
fn no_hook_pool_lists_fixed_accounts_in_order() {
    let p = pool(false);
    let user = key(20);
    let hook_program = key(21);
    let metas = swap_account_metas(&p, &bins(), &user, &hook_program).unwrap();
    assert_eq!(metas.len(), 17);
    #[allow(deprecated)]
    let ata_x = spl_associated_token_account::get_associated_token_address_with_program_id(
        &pubkey(&user),
        &pubkey(&p.mint_x),
        &pubkey(&p.token_program_x),
    );
    #[allow(deprecated)]
    let ata_y = spl_associated_token_account::get_associated_token_address_with_program_id(
        &pubkey(&user),
        &pubkey(&p.mint_y),
        &pubkey(&p.token_program_y),
    );
    assert_ne!(ata_x.to_bytes(), user.bytes);
    let expected: Vec<([u8; 32], bool, bool)> = vec![
        (p.key.bytes, true, false),
        (p.mint_x.bytes, false, false),
        (p.mint_y.bytes, false, false),
        (key(11).bytes, true, false),
        (key(12).bytes, true, false),
        (p.token_vault_x.bytes, true, false),
        (p.token_vault_y.bytes, true, false),
        (ata_x.to_bytes(), true, false),
        (ata_y.to_bytes(), true, false),
        (user.bytes, false, true),
        (p.token_program_x.bytes, false, false),
        (p.token_program_y.bytes, false, false),
        (memo_program_id().bytes, false, false),
        (p.key.bytes, true, false),
        (hook_program.bytes, false, false),
        (p.event_authority.bytes, false, false),
        (p.program_id.bytes, false, false),
    ];
    let got: Vec<([u8; 32], bool, bool)> =
        metas.iter().map(|m| (m.key.bytes, m.is_writable, m.is_signer)).collect();
    assert_eq!(got, expected);
}

#[test]
fn hooked_pool_appends_hook_bin_arrays_last() {
    let p = pool(true);
    let user = key(20);
    let hook_program = key(21);
    let plain = swap_account_metas(&pool(false), &bins(), &user, &hook_program).unwrap();
    let metas = swap_account_metas(&p, &bins(), &user, &hook_program).unwrap();
    assert_eq!(metas.len(), 19);
    for i in 0..17 {
        if i == 13 {
            assert_eq!(metas[i].key, p.hook);
        } else {
            assert_eq!(metas[i].key, plain[i].key);
        }
        assert_eq!(metas[i].is_writable, plain[i].is_writable);
        assert_eq!(metas[i].is_signer, plain[i].is_signer);
    }
    let hook = pubkey(&p.hook);
    let (lower, _) = Pubkey::find_program_address(
        &[b"bin_array".as_ref(), hook.as_ref(), 7i32.to_le_bytes().as_ref()],
        &pubkey(&hook_program),
    );
    let (upper, _) = Pubkey::find_program_address(
        &[b"bin_array".as_ref(), hook.as_ref(), 8i32.to_le_bytes().as_ref()],
        &pubkey(&hook_program),
    );
    assert_eq!(metas[17].key.bytes, lower.to_bytes());
    assert_eq!(metas[18].key.bytes, upper.to_bytes());
    assert!(metas[17].is_writable && !metas[17].is_signer);
    assert!(metas[18].is_writable && !metas[18].is_signer);
}

#[test]
fn hooked_pool_at_last_index_is_refused() {
    let mut p = pool(true);
    p.bin_array_index = i32::MAX;
    let r = swap_account_metas(&p, &bins(), &key(20), &key(21));
    assert_eq!(r.unwrap_err(), AssemblyError::HookIndexOverflow);
}

#[test]
fn instruction_without_bin_arrays_is_refused() {
    let r = build_swap_instruction(&pool(false), None, &key(20), &key(21), vec![1, 2, 3]);
    assert_eq!(r.unwrap_err(), AssemblyError::BinArraysUnavailable);
}

#[test]
fn instruction_carries_program_and_payload() {
    let ix = build_swap_instruction(&pool(true), Some(bins()), &key(20), &key(21), vec![9, 8, 7])
        .unwrap();
    assert_eq!(ix.program_id, key(10));
    assert_eq!(ix.data, vec![9, 8, 7]);
    assert_eq!(ix.accounts.len(), 19);
}

#[test]
fn simulation_transaction_wraps_instruction() {
    let user = key(20);
    let ix = build_swap_instruction(&pool(false), Some(bins()), &user, &key(21), vec![9, 8, 7])
        .unwrap();
    let text = dlmm_gateway::envelope::simulation_transaction(&ix, &user).unwrap();
    let wire = base64::engine::general_purpose::STANDARD.decode(&text).unwrap();
    assert_eq!(text.len(), 4 * ((wire.len() + 2) / 3));
    assert_eq!(wire[0], 1);
    let tx: solana_sdk::transaction::Transaction = bincode::deserialize(&wire).unwrap();
    assert_eq!(tx.signatures.len(), 1);
    assert_eq!(tx.message.account_keys[0], pubkey(&user));
    assert_eq!(tx.message.instructions.len(), 1);
    assert_eq!(tx.message.instructions[0].data, vec![9, 8, 7]);
    assert_eq!(tx.message.instructions[0].accounts.len(), 17);
    let accounts = ix
        .accounts
        .iter()
        .map(|m| solana_sdk::instruction::AccountMeta {
            pubkey: pubkey(&m.key),
            is_signer: m.is_signer,
            is_writable: m.is_writable,
        })
        .collect();
    let expected = solana_sdk::message::Message::new(
        &[solana_sdk::instruction::Instruction {
            program_id: pubkey(&ix.program_id),
            accounts,
            data: ix.data.clone(),
        }],
        Some(&pubkey(&user)),
    );
    assert_eq!(&wire[65..], bincode::serialize(&expected).unwrap().as_slice());
}

#[test]
fn oversized_payload_is_not_wrapped() {
    let user = key(20);
    let ix = build_swap_instruction(&pool(false), Some(bins()), &user, &key(21), vec![0; 65536])
        .unwrap();
    assert!(dlmm_gateway::envelope::simulation_transaction(&ix, &user).is_none());
    let ix = build_swap_instruction(&pool(false), Some(bins()), &user, &key(21), vec![0; 65535])
        .unwrap();
    assert!(dlmm_gateway::envelope::simulation_transaction(&ix, &user).is_some());
}
