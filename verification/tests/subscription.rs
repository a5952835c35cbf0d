use open62541::async_subscription::{
    complete_subscription, create_subscription, create_subscription_request, delete_subscription,
    received_subscription,
};
use open62541::service::{Exchange, Guard, Reply};
use open62541::ua::{
    AttributeId, CreateMonitoredItemsRequest, CreateMonitoredItemsResponse,
    CreateSubscriptionRequest, CreateSubscriptionResponse, DeleteMonitoredItemsRequest,
    DeleteSubscriptionsRequest, MonitoredItemCreateRequest, MonitoredItemCreateResult,
    MonitoredItemId, NodeId, StatusCode, SubscriptionId,
};
use open62541::{AsyncClient, AsyncMonitoredItem, AsyncSubscription, Error};

fn created(service_result: u32, id: u32) -> CreateSubscriptionResponse {
    CreateSubscriptionResponse {
        service_result: StatusCode::new(service_result),
        subscription_id: SubscriptionId { raw: id },
    }
}

fn subscription(id: u32) -> AsyncSubscription {
    AsyncSubscription::new(Ok(created(0, id))).unwrap()
}

#[test]
fn subscription_keeps_the_servers_number() {
    let client = AsyncClient::new(100_000_000);
    let subscription = client.create_subscription(Ok(created(0, 17))).unwrap();
    assert_eq!(subscription.subscription_id(), SubscriptionId { raw: 17 });
    assert_eq!(create_subscription_request(), CreateSubscriptionRequest {});
}

#[test]
fn failed_creation_gives_no_subscription() {
    let client = AsyncClient::new(100_000_000);
    assert_eq!(client.create_subscription(Err(Error::LockFailure)), Err(Error::LockFailure));
    assert_eq!(
        AsyncSubscription::new(Err(Error::ServiceFailure(StatusCode::new(0x8002_0000)))),
        Err(Error::ServiceFailure(StatusCode::new(0x8002_0000)))
    );
}

#[test]
fn creation_follows_the_exchange() {
    let good = Exchange::Sent { status: StatusCode::new(0), reply: Reply::Response(created(0, 3)) };
    assert_eq!(create_subscription(good), Ok(created(0, 3)));
    let bad = Exchange::Sent {
        status: StatusCode::new(0),
        reply: Reply::Response(created(0x8077_0000, 0)),
    };
    assert_eq!(
        create_subscription(bad),
        Err(Error::ServiceFailure(StatusCode::new(0x8077_0000)))
    );
    assert_eq!(create_subscription(Exchange::Poisoned), Err(Error::LockFailure));
    let abandoned = Exchange::Sent { status: StatusCode::new(0), reply: Reply::Abandoned };
    assert_eq!(create_subscription(abandoned), Err(Error::InternalInvariantViolation));
}

#[test]
fn creation_result_travels_through_the_channel() {
    let (tx, mut rx) =
        futures_channel::oneshot::channel::<Result<CreateSubscriptionResponse, Error>>();
    assert_eq!(complete_subscription(tx, created(0, 5)), None);
    let sent = rx.try_recv().unwrap().unwrap();
    assert_eq!(received_subscription(Ok(sent)), Ok(created(0, 5)));
}

#[test]
fn creation_result_for_departed_caller_is_handed_back() {
    let (tx, rx) =
        futures_channel::oneshot::channel::<Result<CreateSubscriptionResponse, Error>>();
    drop(rx);
    assert_eq!(
        complete_subscription(tx, created(0x8002_0000, 0)),
        Some(Err(Error::ServiceFailure(StatusCode::new(0x8002_0000))))
    );
}

#[test]
fn cancelled_channel_is_internal_error() {
    let (tx, mut rx) =
        futures_channel::oneshot::channel::<Result<CreateSubscriptionResponse, Error>>();
    drop(tx);
    let canceled = rx.try_recv().unwrap_err();
    assert_eq!(received_subscription(Err(canceled)), Err(Error::InternalInvariantViolation));
}

#[test]
fn monitored_item_on_detached_subscription_fails() {
    let node_id = NodeId::numeric(1, 1773);
    assert_eq!(
        subscription(17).create_monitored_item(None, &node_id),
        Err(Error::DetachedParent)
    );
}

#[test]
fn monitored_item_request_names_subscription_and_value() {
    let client = AsyncClient::new(100_000_000);
    let node_id = NodeId::numeric(1, 1773);
    assert_eq!(
        subscription(17).create_monitored_item(Some(&client), &node_id),
        Ok(CreateMonitoredItemsRequest {
            subscription_id: SubscriptionId { raw: 17 },
            items_to_create: vec![MonitoredItemCreateRequest {
                node_id: &node_id,
                attribute_id: AttributeId::new(13),
            }],
        })
    );
}

#[test]
fn dropping_subscription_with_live_client_deletes_it_once() {
    let client = AsyncClient::new(100_000_000);
    assert_eq!(
        subscription(17).teardown(Some(&client)),
        Some(DeleteSubscriptionsRequest { subscription_ids: vec![SubscriptionId { raw: 17 }] })
    );
}

#[test]
fn dropping_subscription_without_client_does_nothing() {
    assert_eq!(subscription(17).teardown(None), None);
}

#[test]
fn delete_goes_out_only_under_the_guard() {
    let request = DeleteSubscriptionsRequest { subscription_ids: vec![SubscriptionId { raw: 4 }] };
    assert_eq!(delete_subscription(request.clone(), Guard::Acquired), Some(request.clone()));
    assert_eq!(delete_subscription(request, Guard::Poisoned), None);
}

fn item_response(service_result: u32, results: Option<Vec<(u32, u32)>>) -> CreateMonitoredItemsResponse {
    CreateMonitoredItemsResponse {
        service_result: StatusCode::new(service_result),
        results: results.map(|results| {
            results
                .into_iter()
                .map(|(status, id)| MonitoredItemCreateResult {
                    status_code: StatusCode::new(status),
                    monitored_item_id: MonitoredItemId { raw: id },
                })
                .collect()
        }),
    }
}

#[test]
fn monitored_item_keeps_both_numbers() {
    let parent = SubscriptionId { raw: 17 };
    let item = AsyncMonitoredItem::new(&parent, Ok(item_response(0, Some(vec![(0, 8)])))).unwrap();
    assert_eq!(item.subscription_id(), parent);
    assert_eq!(item.monitored_item_id(), MonitoredItemId { raw: 8 });
}

#[test]
fn monitored_item_creation_fails_by_first_result() {
    let parent = SubscriptionId { raw: 17 };
    assert_eq!(
        AsyncMonitoredItem::new(&parent, Ok(item_response(0, Some(vec![(0x8034_0000, 0)])))),
        Err(Error::ServiceFailure(StatusCode::new(0x8034_0000)))
    );
    assert_eq!(
        AsyncMonitoredItem::new(&parent, Ok(item_response(0, Some(vec![])))),
        Err(Error::InternalInvariantViolation)
    );
    assert_eq!(
        AsyncMonitoredItem::new(&parent, Ok(item_response(0, None))),
        Err(Error::InternalInvariantViolation)
    );
    assert_eq!(AsyncMonitoredItem::new(&parent, Err(Error::LockFailure)), Err(Error::LockFailure));
}

#[test]
fn dropping_monitored_item_follows_the_client() {
    let client = AsyncClient::new(100_000_000);
    let parent = SubscriptionId { raw: 17 };
    let response = || Ok(item_response(0, Some(vec![(0, 8)])));
    assert_eq!(
        AsyncMonitoredItem::new(&parent, response()).unwrap().teardown(Some(&client)),
        Some(DeleteMonitoredItemsRequest {
            subscription_id: parent,
            monitored_item_ids: vec![MonitoredItemId { raw: 8 }],
        })
    );
    assert_eq!(AsyncMonitoredItem::new(&parent, response()).unwrap().teardown(None), None);
}
