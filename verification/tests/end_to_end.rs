// A real end-to-end session: ephemeral identity, encrypted transport with
// the always-accept verifier, framed-session upgrade, then both pumps driven
// by the library's state machine until termination. The two ends talk over
// an in-memory byte stream, standing in for one accepted connection.

use std::sync::Arc;

use futures_util::{SinkExt, StreamExt};
use tokio_rustls::rustls;
use tokio_rustls::rustls::pki_types::CertificateDer;
use tokio_tungstenite::tungstenite::Message;

use p2p_chat::identity::provision_identity;
use p2p_chat::policy;
use p2p_chat::session::{step, Action, CloseDetail, Event, Frame, State};

#[derive(Debug)]
struct AcceptAll;

impl rustls::client::danger::ServerCertVerifier for AcceptAll {
    fn verify_server_cert(
        &self,
        end_entity: &CertificateDer<'_>,
        _intermediates: &[CertificateDer<'_>],
        server_name: &rustls::pki_types::ServerName<'_>,
        _ocsp_response: &[u8],
        _now: rustls::pki_types::UnixTime,
    ) -> Result<rustls::client::danger::ServerCertVerified, rustls::Error> {
        let name = server_name.to_str();
        assert!(policy::accept_server_certificate(end_entity.as_ref(), &name));
        Ok(rustls::client::danger::ServerCertVerified::assertion())
    }

    fn verify_tls12_signature(
        &self,
        message: &[u8],
        _cert: &CertificateDer<'_>,
        dss: &rustls::DigitallySignedStruct,
    ) -> Result<rustls::client::danger::HandshakeSignatureValid, rustls::Error> {
        assert!(policy::accept_handshake_signature(message, dss.signature()));
        Ok(rustls::client::danger::HandshakeSignatureValid::assertion())
    }

    fn verify_tls13_signature(
        &self,
        message: &[u8],
        _cert: &CertificateDer<'_>,
        dss: &rustls::DigitallySignedStruct,
    ) -> Result<rustls::client::danger::HandshakeSignatureValid, rustls::Error> {
        assert!(policy::accept_handshake_signature(message, dss.signature()));
        Ok(rustls::client::danger::HandshakeSignatureValid::assertion())
    }

    fn supported_verify_schemes(&self) -> Vec<rustls::SignatureScheme> {
        policy::offered_schemes()
            .into_iter()
            .map(rustls::SignatureScheme::from)
            .collect()
    }
}

fn to_frame(message: Message) -> Frame {
    match message {
        Message::Text(text) => Frame::Text(text.to_string()),
        Message::Ping(payload) => Frame::Ping(payload.to_vec()),
        Message::Pong(payload) => Frame::Pong(payload.to_vec()),
        Message::Close(detail) => Frame::Close(detail.map(|f| CloseDetail {
            code: f.code.into(),
            reason: f.reason.to_string(),
        })),
        _ => Frame::Other,
    }
}

fn action_to_message(action: Action) -> Option<Message> {
    match action {
        Action::Nothing => None,
        Action::SendText(text) => Some(Message::Text(text.into())),
        Action::SendPong(payload) => Some(Message::Pong(payload.into())),
    }
}

#[test]
fn full_session_end_to_end() {
    let runtime = tokio::runtime::Builder::new_multi_thread()
        .enable_all()
        .build()
        .expect("runtime");
    runtime.block_on(async {
        let _ = rustls::crypto::ring::default_provider().install_default();

        // Listener side: ephemeral identity, encrypted transport config with
        // the single advertised protocol.
        let identity = provision_identity().expect("identity");
        let key = rustls::pki_types::PrivateKeyDer::Pkcs8(identity.key_der.into());
        let cert_chain = vec![CertificateDer::from(identity.cert_der)];
        let mut server_config = rustls::ServerConfig::builder()
            .with_no_client_auth()
            .with_single_cert(cert_chain, key)
            .expect("server config");
        server_config.alpn_protocols = vec![policy::alpn_protocol()];
        let acceptor = tokio_rustls::TlsAcceptor::from(Arc::new(server_config));

        // One byte-stream connection between the two ends.
        let (initiator_io, listener_io) = tokio::io::duplex(64 * 1024);

        let listener_task = tokio::spawn(async move {
            // Exactly one inbound connection is examined per run.
            let mut accepted: u64 = 0;
            assert!(policy::may_accept_connection(accepted));
            accepted += 1;
            assert!(!policy::may_accept_connection(accepted));

            let tls = acceptor.accept(listener_io).await.expect("tls accept");
            let ws = tokio_tungstenite::accept_async(tls).await.expect("ws accept");
            let (mut sender, mut receiver) = ws.split();

            let mut state = State::Open;
            let mut displayed: Vec<String> = Vec::new();

            // First event: the initiator's "hello" arrives.
            let message = receiver.next().await.expect("a frame").expect("no error");
            let frame = to_frame(message);
            if let Frame::Text(text) = &frame {
                displayed.push(text.clone());
            }
            let (next, action) = step(state, Event::Remote(frame));
            state = next;
            assert_eq!(state, State::Open);
            assert!(matches!(action, Action::Nothing));

            // The listener types "hi"; its pump sends it as one text frame.
            let (next, action) = step(state, Event::LocalLine("hi".to_string()));
            state = next;
            if let Some(message) = action_to_message(action) {
                sender.send(message).await.expect("send hi");
            }
            assert_eq!(state, State::Open);

            // Next event: the initiator closes; the pump terminates.
            let message = receiver.next().await.expect("a frame").expect("no error");
            let frame = to_frame(message);
            let (next, action) = step(state, Event::Remote(frame));
            state = next;
            assert_eq!(state, State::Terminated);
            assert!(matches!(action, Action::Nothing));

            displayed
        });

        // Initiator side: empty root store, always-accept verifier.
        let mut client_config = rustls::ClientConfig::builder()
            .with_root_certificates(rustls::RootCertStore::empty())
            .with_no_client_auth();
        client_config
            .dangerous()
            .set_certificate_verifier(Arc::new(AcceptAll));
        client_config.alpn_protocols = vec![policy::alpn_protocol()];
        let connector = tokio_rustls::TlsConnector::from(Arc::new(client_config));

        let domain = rustls::pki_types::ServerName::try_from("127.0.0.1").expect("server name");
        // The certificate is self-signed and bound to "localhost", not to
        // 127.0.0.1: the handshake must still succeed under the policy.
        let tls = connector
            .connect(domain, initiator_io)
            .await
            .expect("tls connect");
        let (ws, _) = tokio_tungstenite::client_async("wss://127.0.0.1:8080", tls)
            .await
            .expect("ws connect");
        let (mut sender, mut receiver) = ws.split();

        let mut state = State::Open;
        let mut displayed: Vec<String> = Vec::new();

        // The initiator types "hello".
        let (next, action) = step(state, Event::LocalLine("hello".to_string()));
        state = next;
        if let Some(message) = action_to_message(action) {
            sender.send(message).await.expect("send hello");
        }
        assert_eq!(state, State::Open);

        // The listener's "hi" arrives.
        let message = receiver.next().await.expect("a frame").expect("no error");
        let frame = to_frame(message);
        if let Frame::Text(text) = &frame {
            displayed.push(text.clone());
        }
        let (next, action) = step(state, Event::Remote(frame));
        state = next;
        assert_eq!(state, State::Open);
        assert!(matches!(action, Action::Nothing));

        // Local input is exhausted: the pump terminates gracefully and the
        // transport announces the close to the peer.
        let (next, action) = step(state, Event::LocalClosed);
        state = next;
        assert_eq!(state, State::Terminated);
        assert!(matches!(action, Action::Nothing));
        sender.send(Message::Close(None)).await.expect("send close");

        let listener_displayed = listener_task.await.expect("listener task");
        assert_eq!(listener_displayed, vec!["hello".to_string()]);
        assert_eq!(displayed, vec!["hi".to_string()]);
    });
}
