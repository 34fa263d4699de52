use dlmm_gateway::key::Key;
use dlmm_gateway::requests::{
    instruction_plan, parse_pair_address, parse_quote_request, parse_swap_params, quote_query,
    swap_data_params, InstructionPlan, KeyField, RequestError,
};
use dlmm_gateway::swap::SwapMode;
use dlmm_gateway::types::{
    InstructionRequest, InstructionType, QuoteRequest, QuoteResponse, Status,
    SwapInstructionParams,
};
use solana_sdk::pubkey::Pubkey;

fn text(n: u8) -> String {
    Pubkey::new_from_array([n; 32]).to_string()
}

fn swap_params() -> SwapInstructionParams {
    SwapInstructionParams {
        source_mint: text(2),
        destination_mint: text(3),
        in_amount: 1000,
        min_out_amount: 990,
        signer: text(4),
    }
}

#[test]
fn short_address_is_rejected() {
    assert_eq!(parse_pair_address("abc"), Err(RequestError::AddressTooShort));
    assert_eq!(parse_pair_address(""), Err(RequestError::AddressTooShort));
}

#[test]
fn malformed_address_is_rejected() {
    assert_eq!(
        parse_pair_address("0OIl0OIl0OIl0OIl0OIl0OIl0OIl0OIl0"),
        Err(RequestError::InvalidKey(KeyField::Pair))
    );
}

#[test]
fn valid_address_decodes() {
    assert_eq!(parse_pair_address(&text(7)), Ok(Key::new([7; 32])));
    let memo = "MemoSq4gqABAXKb96qnH8TysNcWxMyWCqXgDLGmfcHr";
    assert_eq!(parse_pair_address(memo).unwrap().bytes[0], 5);
}

#[test]
fn quote_from_mint_x_toward_y_is_exact_in() {
    let req = QuoteRequest {
        pair_address: text(1),
        source_mint: text(2),
        destination_mint: text(3),
        amount_in: 500,
    };
    let q = parse_quote_request(&req).unwrap();
    assert_eq!(q.pair, Key::new([1; 32]));
    let query = quote_query(&q, true, &Key::new([2; 32]));
    assert_eq!(query.swap_mode, SwapMode::ExactIn);
    assert_eq!(query.amount, 500);
    assert_eq!(query.input_mint, Key::new([2; 32]));
    assert_eq!(query.output_mint, Key::new([3; 32]));
    let from_y = quote_query(&q, true, &Key::new([3; 32]));
    assert_eq!(from_y.swap_mode, SwapMode::ExactOut);
}

#[test]
fn quote_with_bad_mint_is_rejected() {
    let req = QuoteRequest {
        pair_address: text(1),
        source_mint: text(2),
        destination_mint: "not a key".to_string(),
        amount_in: 500,
    };
    assert_eq!(
        parse_quote_request(&req).unwrap_err(),
        RequestError::InvalidKey(KeyField::DestinationMint)
    );
    let req = QuoteRequest { source_mint: "x".to_string(), ..req };
    assert_eq!(
        parse_quote_request(&req).unwrap_err(),
        RequestError::InvalidKey(KeyField::SourceMint)
    );
}

#[test]
fn swap_payload_inputs() {
    let s = parse_swap_params(&swap_params()).unwrap();
    assert_eq!(s.signer, Key::new([4; 32]));
    let d = swap_data_params(&s, false, &Key::new([2; 32]));
    assert_eq!(d.amount, 1000);
    assert_eq!(d.other_amount_threshold, 990);
    assert!(!d.swap_for_y);
    assert_eq!(d.swap_mode, SwapMode::ExactOut);
}

#[test]
fn swap_with_bad_signer_is_rejected() {
    let p = SwapInstructionParams { signer: "??".to_string(), ..swap_params() };
    assert_eq!(parse_swap_params(&p).unwrap_err(), RequestError::InvalidKey(KeyField::Signer));
}

#[test]
fn swap_instruction_plan_and_unsupported_kinds() {
    let req = InstructionRequest {
        instruction_type: InstructionType::Swap,
        pair_address: text(1),
        params: swap_params(),
    };
    match instruction_plan(&req).unwrap() {
        InstructionPlan::Swap { pair, swap } => {
            assert_eq!(pair, Key::new([1; 32]));
            assert_eq!(swap.source_mint, Key::new([2; 32]));
            assert_eq!(swap.destination_mint, Key::new([3; 32]));
            assert_eq!(swap.signer, Key::new([4; 32]));
            assert_eq!(swap.in_amount, 1000);
            assert_eq!(swap.min_out_amount, 990);
        }
        InstructionPlan::Unsupported => panic!("swap must be planned"),
    }
    let other = InstructionRequest { instruction_type: InstructionType::AddLiquidity, ..req };
    assert!(matches!(instruction_plan(&other), Ok(InstructionPlan::Unsupported)));
}

#[test]
fn instruction_with_malformed_keys_is_rejected() {
    let bad_mint = InstructionRequest {
        instruction_type: InstructionType::Swap,
        pair_address: text(1),
        params: SwapInstructionParams { destination_mint: "nope".to_string(), ..swap_params() },
    };
    assert_eq!(
        instruction_plan(&bad_mint).unwrap_err(),
        RequestError::InvalidKey(KeyField::DestinationMint)
    );
    let short_pair = InstructionRequest {
        instruction_type: InstructionType::ClosePosition,
        pair_address: "short".to_string(),
        params: swap_params(),
    };
    assert_eq!(instruction_plan(&short_pair).unwrap_err(), RequestError::AddressTooShort);
}

#[test]
fn status_spellings() {
    assert_eq!(Status::Success.as_str(), "ok");
    assert_eq!(Status::Error.as_str(), "error");
    assert_eq!(Status::Failure.as_str(), "failure");
}

#[test]
fn default_quote_is_zero() {
    let q = QuoteResponse::default();
    assert_eq!((q.in_amount, q.out_amount, q.fee_amount), (0, 0, 0));
    assert_eq!(q.fee_mint, Key::new([0; 32]));
}
