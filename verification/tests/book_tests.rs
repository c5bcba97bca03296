use angstrom_consensus::book::{
    MarketSnapshot, Order, OrderBook, PriceRange, SortStrategy, SqrtPriceX96,
};

#[test]
fn can_construct_order_book() {
    // Very basic book construction test
    let bids = vec![];
    let asks = vec![];
    let amm = MarketSnapshot::new(vec![], SqrtPriceX96::new(0)).unwrap();
    OrderBook::new(Some(amm), bids, asks, None);
}

#[test]
fn default_strategy_keeps_input_order() {
    let bids = vec![
        Order { price: 10, volume: 1 },
        Order { price: 30, volume: 2 },
        Order { price: 20, volume: 3 },
    ];
    let asks = vec![Order { price: 7, volume: 1 }, Order { price: 5, volume: 2 }];
    let book = OrderBook::new(None, bids.clone(), asks.clone(), None);
    assert_eq!(book.bids(), &bids);
    assert_eq!(book.asks(), &asks);
    assert!(book.amm().is_none());
}

#[test]
fn by_price_sorts_bids_descending_and_asks_ascending() {
    let bids = vec![
        Order { price: 10, volume: 1 },
        Order { price: 30, volume: 2 },
        Order { price: 20, volume: 3 },
    ];
    let asks = vec![
        Order { price: 7, volume: 1 },
        Order { price: 5, volume: 2 },
        Order { price: 9, volume: 3 },
    ];
    let book = OrderBook::new(None, bids, asks, Some(SortStrategy::ByPrice));
    let bid_prices: Vec<u128> = book.bids().iter().map(|o| o.price).collect();
    let ask_prices: Vec<u128> = book.asks().iter().map(|o| o.price).collect();
    assert_eq!(bid_prices, vec![30, 20, 10]);
    assert_eq!(ask_prices, vec![5, 7, 9]);
}

#[test]
fn sort_keeps_equal_price_orders() {
    let bids = vec![
        Order { price: 10, volume: 1 },
        Order { price: 10, volume: 2 },
        Order { price: 40, volume: 3 },
    ];
    let book = OrderBook::new(None, bids, vec![], Some(SortStrategy::ByPrice));
    assert_eq!(book.bids().len(), 3);
    assert_eq!(book.bids()[0].price, 40);
    let volumes: Vec<u128> = book.bids().iter().map(|o| o.volume).collect();
    let mut sorted_volumes = volumes.clone();
    sorted_volumes.sort();
    assert_eq!(sorted_volumes, vec![1, 2, 3]);
}

#[test]
fn market_snapshot_rejects_inverted_range() {
    let bad = vec![PriceRange { lower: 10, upper: 10, liquidity: 1 }];
    assert!(MarketSnapshot::new(bad, SqrtPriceX96::new(0)).is_none());
    let good = vec![PriceRange { lower: 10, upper: 11, liquidity: 1 }];
    let snap = MarketSnapshot::new(good, SqrtPriceX96::new(42)).unwrap();
    assert_eq!(snap.sqrt_price().value, 42);
}
