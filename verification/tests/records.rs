use rabbitmq_management_client::api::binding::{
    confirm_binding_location, RabbitMqBindingDestinationType,
};
use rabbitmq_management_client::api::message::{
    RabbitMqGetMessagesAckMode, RabbitMqGetMessagesEncoding, RabbitMqMessageDeliveryMode,
    RabbitMqMessageEncoding,
};
use rabbitmq_management_client::api::node::{
    RabbitMqNodeMemory, RabbitMqNodeMemoryTotal, RabbitMqNodeMemoryWrapper,
};
use rabbitmq_management_client::api::options::pagination::RabbitMqPaginatedResponse;
use rabbitmq_management_client::api::queue::RabbitMqQueueAction;
use rabbitmq_management_client::errors::RabbitMqClientError;

#[test]
fn empty_well_formed_page_has_zero_count() {
    let page: RabbitMqPaginatedResponse<String> = RabbitMqPaginatedResponse {
        filtered_count: 0,
        item_count: 0,
        items: vec![],
        page: 1,
        page_count: 0,
        page_size: 50,
        total_count: 0,
    };
    assert!(page.check_counts());
    assert_eq!(page.item_count, 0);
    assert_eq!(page.items.len(), 0);
}

#[test]
fn mismatched_counts_fail_the_page_invariant() {
    let page: RabbitMqPaginatedResponse<u32> = RabbitMqPaginatedResponse {
        filtered_count: 1,
        item_count: 2,
        items: vec![9],
        page: 1,
        page_count: 1,
        page_size: 50,
        total_count: 1,
    };
    assert!(!page.check_counts());
    let overfull: RabbitMqPaginatedResponse<u32> = RabbitMqPaginatedResponse {
        filtered_count: 3,
        item_count: 3,
        items: vec![1, 2, 3],
        page: 1,
        page_count: 1,
        page_size: 2,
        total_count: 3,
    };
    assert!(!overfull.check_counts());
}

#[test]
fn binding_location_present_passes_through() {
    let r = confirm_binding_location(Some(String::from("queue/x/y")));
    assert_eq!(r.unwrap(), "queue/x/y");
}

#[test]
fn binding_location_missing_is_unexpected_response() {
    match confirm_binding_location(None) {
        Err(RabbitMqClientError::UnexpectedResponse(m)) => {
            assert_eq!(m, "Binding Location header not present")
        }
        other => panic!("expected UnexpectedResponse, got {:?}", other),
    }
}

#[test]
fn destination_types_have_one_letter_symbols() {
    assert_eq!(RabbitMqBindingDestinationType::Exchange.wire_symbol(), "e");
    assert_eq!(RabbitMqBindingDestinationType::Queue.wire_symbol(), "q");
}

#[test]
fn queue_actions_have_wire_names() {
    assert_eq!(RabbitMqQueueAction::Sync.wire_name(), "sync");
    assert_eq!(RabbitMqQueueAction::CancelSync.wire_name(), "cancel_sync");
}

#[test]
fn message_enums_have_wire_names() {
    assert_eq!(RabbitMqMessageEncoding::String.wire_name(), "string");
    assert_eq!(RabbitMqMessageEncoding::Base64.wire_name(), "base64");
    assert_eq!(RabbitMqGetMessagesEncoding::Auto.wire_name(), "auto");
    assert_eq!(RabbitMqGetMessagesEncoding::Base64.wire_name(), "base64");
    assert_eq!(
        RabbitMqGetMessagesAckMode::AckRequeueTrue.wire_name(),
        "ack_requeue_true"
    );
    assert_eq!(
        RabbitMqGetMessagesAckMode::AckRequeueFalse.wire_name(),
        "ack_requeue_false"
    );
    assert_eq!(
        RabbitMqGetMessagesAckMode::RejectRequeueTrue.wire_name(),
        "reject_requeue_true"
    );
    assert_eq!(
        RabbitMqGetMessagesAckMode::RejectRequeueFalse.wire_name(),
        "reject_requeue_false"
    );
}

#[test]
fn delivery_mode_round_trips_through_wire_value() {
    for mode in [
        RabbitMqMessageDeliveryMode::NonPersistent,
        RabbitMqMessageDeliveryMode::Persistent,
    ] {
        let v = mode.wire_value();
        assert_eq!(RabbitMqMessageDeliveryMode::from_wire_value(v), Some(mode));
    }
    assert_eq!(RabbitMqMessageDeliveryMode::NonPersistent.wire_value(), 1);
    assert_eq!(RabbitMqMessageDeliveryMode::Persistent.wire_value(), 2);
    assert_eq!(RabbitMqMessageDeliveryMode::from_wire_value(0), None);
    assert_eq!(RabbitMqMessageDeliveryMode::from_wire_value(3), None);
}

#[test]
fn node_memory_unwraps_from_its_envelope() {
    let wrapper = RabbitMqNodeMemoryWrapper {
        memory: RabbitMqNodeMemory {
            connection_readers: 1,
            connection_writers: 2,
            connection_channels: 3,
            connection_other: 4,
            queue_procs: 5,
            queue_slave_procs: 6,
            quorum_queue_procs: 7,
            quorum_queue_dlx_procs: 8,
            stream_queue_procs: 9,
            stream_queue_replica_reader_procs: 10,
            stream_queue_coordinator_procs: 11,
            plugins: 12,
            other_proc: 13,
            metrics: 14,
            mgmt_db: 15,
            mnesia: 16,
            quorum_ets: 17,
            other_ets: 18,
            binary: 19,
            msg_index: 20,
            code: 21,
            atom: 22,
            other_system: 23,
            allocated_unused: 24,
            reserved_unallocated: 25,
            strategy: String::from("rss"),
            total: RabbitMqNodeMemoryTotal {
                erlang: 100,
                rss: 200,
                allocated: 300,
            },
        },
    };
    let memory = wrapper.into_memory();
    assert_eq!(memory.connection_readers, 1);
    assert_eq!(memory.strategy, "rss");
    assert_eq!(memory.total.rss, 200);
}
